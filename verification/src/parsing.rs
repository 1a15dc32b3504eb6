use vstd::prelude::*;

verus! {

broadcast use vstd::std_specs::vec::axiom_vec_index_decreases;

/// Visibility marker of a declared module or generated record.
#[derive(Clone, Copy, PartialEq, Eq, Structural, Debug)]
pub enum Vis {
    Public,
    Inherited,
}

/// The HTTP verb of a declared method, carrying the source position of its
/// token. All eight verbs are representable, though the declaration syntax
/// deliberately accepts only the first five.
#[derive(Clone, Copy, PartialEq, Eq, Structural, Debug)]
pub enum MethodType {
    Get(usize),
    Post(usize),
    Put(usize),
    Delete(usize),
    Patch(usize),
    Head(usize),
    Options(usize),
    Trace(usize),
}

/// One segment of a declared path: an identifier, a flag marking it as a
/// path parameter, and its source position.
#[derive(Debug)]
pub struct PathSeg {
    pub name: String,
    pub is_param: bool,
    pub pos: usize,
}

/// Model of a [`PathSeg`].
pub struct PathSegV {
    pub name: Seq<char>,
    pub is_param: bool,
    pub pos: usize,
}

impl DeepView for PathSeg {
    type V = PathSegV;

    open spec fn deep_view(&self) -> PathSegV {
        PathSegV { name: self.name@, is_param: self.is_param, pos: self.pos }
    }
}

/// A declared path such as `/api/{id}/posts`: an ordered sequence of
/// segments.
#[derive(Debug)]
pub struct MethodPath {
    pub segments: Vec<PathSeg>,
}

/// Model of a [`MethodPath`].
pub struct MethodPathV {
    pub segments: Seq<PathSegV>,
}

impl DeepView for MethodPath {
    type V = MethodPathV;

    open spec fn deep_view(&self) -> MethodPathV {
        MethodPathV { segments: self.segments.deep_view() }
    }
}

impl MethodPath {
    /// The source position of the path: that of its first segment.
    pub fn span(&self) -> (r: usize)
        requires
            self.segments.len() > 0,
        ensures
            r == self.deep_view().segments[0].pos,
    {
        self.segments[0].pos
    }
}

/// A declared method such as `GET /api/posts as pub GetPosts;`.
#[derive(Debug)]
pub struct MethodItem {
    pub method_ty: MethodType,
    pub path: MethodPath,
    pub struct_vis: Vis,
    pub struct_name: String,
}

/// Model of a [`MethodItem`].
pub struct MethodItemV {
    pub method_ty: MethodType,
    pub path: MethodPathV,
    pub struct_vis: Vis,
    pub struct_name: Seq<char>,
}

impl DeepView for MethodItem {
    type V = MethodItemV;

    open spec fn deep_view(&self) -> MethodItemV {
        MethodItemV {
            method_ty: self.method_ty,
            path: self.path.deep_view(),
            struct_vis: self.struct_vis,
            struct_name: self.struct_name@,
        }
    }
}

/// A top-level or nested declaration: a module of further items, or a
/// method.
#[derive(Debug)]
pub enum Item {
    Module(ModuleItem),
    Method(MethodItem),
}

/// A declared module such as `pub mod api { ... }`.
#[derive(Debug)]
pub struct ModuleItem {
    pub vis: Vis,
    pub name: String,
    pub items: Vec<Item>,
}

/// Model of an [`Item`].
pub enum ItemV {
    Module(ModuleItemV),
    Method(MethodItemV),
}

/// Model of a [`ModuleItem`].
pub struct ModuleItemV {
    pub vis: Vis,
    pub name: Seq<char>,
    pub items: Seq<ItemV>,
}

/// Model of an [`Item`], defined recursively over the declaration tree.
pub open spec fn item_dv(t: Item) -> ItemV
    decreases t,
{
    match t {
        Item::Module(m) => ItemV::Module(module_dv(m)),
        Item::Method(m) => ItemV::Method(m.deep_view()),
    }
}

/// Model of a [`ModuleItem`].
pub open spec fn module_dv(m: ModuleItem) -> ModuleItemV
    decreases m,
{
    ModuleItemV { vis: m.vis, name: m.name@, items: items_dv(m.items, 0) }
}

/// Models of the items of a vector, from index `i` on.
pub open spec fn items_dv(v: Vec<Item>, i: int) -> Seq<ItemV>
    decreases v, v@.len() - i,
{
    if i < 0 || i >= v@.len() {
        Seq::empty()
    } else {
        seq![item_dv(v[i])] + items_dv(v, i + 1)
    }
}

impl DeepView for Item {
    type V = ItemV;

    open spec fn deep_view(&self) -> ItemV {
        item_dv(*self)
    }
}

impl DeepView for ModuleItem {
    type V = ModuleItemV;

    open spec fn deep_view(&self) -> ModuleItemV {
        module_dv(*self)
    }
}

/// `items_dv` lists the model of each item in order.
pub proof fn lemma_items_dv(v: Vec<Item>, i: int)
    requires
        0 <= i <= v@.len(),
    ensures
        items_dv(v, i).len() == v@.len() - i,
        forall|k: int|
            i <= k < v@.len() ==> items_dv(v, i)[k - i] == item_dv(v@[k]),
    decreases v@.len() - i,
{
    if i < v@.len() {
        lemma_items_dv(v, i + 1);
    }
}

/// The model of a whole item vector is its element-wise deep view.
pub proof fn lemma_items_dv_is_deep_view(v: Vec<Item>)
    ensures
        items_dv(v, 0) =~= v.deep_view(),
{
    lemma_items_dv(v, 0);
}

/// The root of the declaration tree: the spec-document path, its source
/// position, and the ordered top-level items.
#[derive(Debug)]
pub struct Root {
    pub spec_path: String,
    pub spec_path_pos: usize,
    pub items: Vec<Item>,
}

/// Model of a [`Root`].
pub struct RootV {
    pub spec_path: Seq<char>,
    pub spec_path_pos: usize,
    pub items: Seq<ItemV>,
}

impl DeepView for Root {
    type V = RootV;

    open spec fn deep_view(&self) -> RootV {
        RootV {
            spec_path: self.spec_path@,
            spec_path_pos: self.spec_path_pos,
            items: self.items.deep_view(),
        }
    }
}

} // verus!

// ---------------------------------------------------------------------------
// The declaration parser: a recursive-descent parser over characters, with a
// model-level mirror for every production. The mirror is the grammar's
// definitional semantics; each executable function returns exactly what its
// mirror denotes.
// ---------------------------------------------------------------------------

verus! {

use crate::err::{err_at, Error, ErrorKind, ErrorV};
use crate::util::{chars_of, push_char, str_is};

/// Whitespace accepted between tokens.
pub open spec fn is_ws(c: char) -> bool {
    c == ' ' || c == '\n' || c == '\t' || c == '\r'
}

/// Characters that may open an identifier: ASCII letters and `_`.
pub open spec fn is_ident_start(c: char) -> bool {
    (97 <= c as u32 && c as u32 <= 122) || (65 <= c as u32 && c as u32 <= 90) || c == '_'
}

/// Characters that may continue an identifier: ASCII letters, digits and `_`.
pub open spec fn is_ident_char(c: char) -> bool {
    is_ident_start(c) || (48 <= c as u32 && c as u32 <= 57)
}

/// How many characters remain at position `i`, never negative.
pub open spec fn remaining(s: Seq<char>, i: int) -> int {
    if s.len() - i >= 0 {
        s.len() - i
    } else {
        0
    }
}

/// The position a parse step hands to the next one. Parsing always advances,
/// as every parser's contract shows; the second branch only keeps the
/// recursive definitions well-founded.
pub open spec fn bump(i: int, j: int) -> int {
    if j > i {
        j
    } else {
        i + 1
    }
}

/// First position at or after `i` that does not hold whitespace.
pub open spec fn sp_skip_ws(s: Seq<char>, i: int) -> int
    decreases remaining(s, i),
{
    if 0 <= i < s.len() && is_ws(s[i]) {
        sp_skip_ws(s, i + 1)
    } else {
        i
    }
}

/// First position at or after `i` that does not hold an identifier character.
pub open spec fn sp_ident_end(s: Seq<char>, i: int) -> int
    decreases remaining(s, i),
{
    if 0 <= i < s.len() && is_ident_char(s[i]) {
        sp_ident_end(s, i + 1)
    } else {
        i
    }
}

/// First position at or after `i` holding a double quote, or the end.
pub open spec fn sp_quote_end(s: Seq<char>, i: int) -> int
    decreases remaining(s, i),
{
    if 0 <= i < s.len() && s[i] != '"' {
        sp_quote_end(s, i + 1)
    } else {
        i
    }
}

/// An identifier token: its characters, its start, and the position after it.
pub open spec fn sp_parse_ident(s: Seq<char>, i: int) -> Result<(Seq<char>, int, int), ErrorV> {
    let j = sp_skip_ws(s, i);
    if j < s.len() && is_ident_start(s[j]) {
        let k = sp_ident_end(s, j);
        Ok((s.subrange(j, k), j, k))
    } else {
        Err(err_at(ErrorKind::Syntax, j as usize, "expected an identifier"@))
    }
}

/// A single expected punctuation character.
pub open spec fn sp_expect(s: Seq<char>, i: int, c: char, msg: Seq<char>) -> Result<int, ErrorV> {
    let j = sp_skip_ws(s, i);
    if j < s.len() && s[j] == c {
        Ok(j + 1)
    } else {
        Err(err_at(ErrorKind::Syntax, j as usize, msg))
    }
}

/// An optional `pub` marker; consumes nothing when absent.
pub open spec fn sp_parse_vis(s: Seq<char>, i: int) -> (Vis, int) {
    let j = sp_skip_ws(s, i);
    let k = sp_ident_end(s, j);
    if j < s.len() && is_ident_start(s[j]) && s.subrange(j, k) == "pub"@ {
        (Vis::Public, k)
    } else {
        (Vis::Inherited, i)
    }
}

/// Whether the next token is the keyword `mod`: the point where item parsing
/// commits to a module rather than a method.
pub open spec fn sp_at_kw_mod(s: Seq<char>, i: int) -> bool {
    let j = sp_skip_ws(s, i);
    let k = sp_ident_end(s, j);
    j < s.len() && is_ident_start(s[j]) && s.subrange(j, k) == "mod"@
}

/// A required keyword.
pub open spec fn sp_parse_kw(s: Seq<char>, i: int, kw: Seq<char>) -> Result<int, ErrorV> {
    match sp_parse_ident(s, i) {
        Ok((name, st, j)) => if name == kw {
            Ok(j)
        } else {
            Err(err_at(ErrorKind::Syntax, st as usize, "expected keyword: "@ + kw))
        },
        Err(_) => Err(
            err_at(ErrorKind::Syntax, sp_skip_ws(s, i) as usize, "expected keyword: "@ + kw),
        ),
    }
}

/// A double-quoted string literal: its value, the position of its opening
/// quote, and the position after its closing quote.
pub open spec fn sp_parse_string_lit(s: Seq<char>, i: int) -> Result<(Seq<char>, int, int), ErrorV> {
    let j = sp_skip_ws(s, i);
    if j < s.len() && s[j] == '"' {
        let k = sp_quote_end(s, j + 1);
        if k < s.len() {
            Ok((s.subrange(j + 1, k), j, k + 1))
        } else {
            Err(err_at(ErrorKind::Syntax, j as usize, "unterminated string literal"@))
        }
    } else {
        Err(err_at(ErrorKind::Syntax, j as usize, "expected a string literal"@))
    }
}

/// A verb token. Only five of the eight representable verbs are accepted
/// from declaration syntax.
pub open spec fn sp_parse_method_type(s: Seq<char>, i: int) -> Result<(MethodType, int), ErrorV> {
    match sp_parse_ident(s, i) {
        Ok((name, st, j)) => if name == "GET"@ {
            Ok((MethodType::Get(st as usize), j))
        } else if name == "POST"@ {
            Ok((MethodType::Post(st as usize), j))
        } else if name == "PUT"@ {
            Ok((MethodType::Put(st as usize), j))
        } else if name == "DELETE"@ {
            Ok((MethodType::Delete(st as usize), j))
        } else if name == "PATCH"@ {
            Ok((MethodType::Patch(st as usize), j))
        } else {
            Err(err_at(ErrorKind::Syntax, st as usize, "Invalid method"@))
        },
        Err(e) => Err(e),
    }
}

/// A declared path: zero or more `/segment` or `/{segment}` steps.
pub open spec fn sp_parse_path_segs(s: Seq<char>, i: int) -> Result<(Seq<PathSegV>, int), ErrorV>
    decreases remaining(s, i),
{
    let j = sp_skip_ws(s, i);
    if j < s.len() && s[j] == '/' {
        let a = sp_skip_ws(s, j + 1);
        if a < s.len() && s[a] == '{' {
            match sp_parse_ident(s, a + 1) {
                Ok((name, st, m)) => match sp_expect(s, m, '}', "expected `}`"@) {
                    Ok(n) => match sp_parse_path_segs(s, bump(i, n)) {
                        Ok((rest, end)) => Ok(
                            (seq![PathSegV { name, is_param: true, pos: st as usize }] + rest, end),
                        ),
                        Err(e) => Err(e),
                    },
                    Err(e) => Err(e),
                },
                Err(e) => Err(e),
            }
        } else {
            match sp_parse_ident(s, j + 1) {
                Ok((name, st, m)) => match sp_parse_path_segs(s, bump(i, m)) {
                    Ok((rest, end)) => Ok(
                        (seq![PathSegV { name, is_param: false, pos: st as usize }] + rest, end),
                    ),
                    Err(e) => Err(e),
                },
                Err(e) => Err(e),
            }
        }
    } else {
        Ok((Seq::empty(), i))
    }
}

/// A method declaration: verb, path, `as`, visibility, record name, `;`.
pub open spec fn sp_parse_method(s: Seq<char>, i: int) -> Result<(MethodItemV, int), ErrorV> {
    match sp_parse_method_type(s, i) {
        Ok((mt, j)) => match sp_parse_path_segs(s, j) {
            Ok((segs, j2)) => match sp_parse_kw(s, j2, "as"@) {
                Ok(j3) => {
                    let (vis, j4) = sp_parse_vis(s, j3);
                    match sp_parse_ident(s, j4) {
                        Ok((name, _, j5)) => match sp_expect(s, j5, ';', "expected `;`"@) {
                            Ok(j6) => Ok(
                                (
                                    MethodItemV {
                                        method_ty: mt,
                                        path: MethodPathV { segments: segs },
                                        struct_vis: vis,
                                        struct_name: name,
                                    },
                                    j6,
                                ),
                            ),
                            Err(e) => Err(e),
                        },
                        Err(e) => Err(e),
                    }
                },
                Err(e) => Err(e),
            },
            Err(e) => Err(e),
        },
        Err(e) => Err(e),
    }
}

/// A module declaration: visibility, `mod`, name, braced items.
pub open spec fn sp_parse_module(s: Seq<char>, i: int) -> Result<(ModuleItemV, int), ErrorV>
    decreases remaining(s, i), 0int,
{
    let (vis, j) = sp_parse_vis(s, i);
    match sp_parse_kw(s, j, "mod"@) {
        Ok(j2) => match sp_parse_ident(s, j2) {
            Ok((name, _, j3)) => match sp_expect(s, j3, '{', "expected `{`"@) {
                Ok(j4) => match sp_parse_items(s, bump(i, j4), true) {
                    Ok((items, j5)) => Ok((ModuleItemV { vis, name, items }, j5)),
                    Err(e) => Err(e),
                },
                Err(e) => Err(e),
            },
            Err(e) => Err(e),
        },
        Err(e) => Err(e),
    }
}

/// One item: attempted as a module where the `mod` keyword follows the
/// optional visibility, otherwise required to parse as a method.
pub open spec fn sp_parse_item(s: Seq<char>, i: int) -> Result<(ItemV, int), ErrorV>
    decreases remaining(s, i), 1int,
{
    let (vis, j) = sp_parse_vis(s, i);
    if sp_at_kw_mod(s, j) {
        match sp_parse_module(s, i) {
            Ok((m, k)) => Ok((ItemV::Module(m), k)),
            Err(e) => Err(e),
        }
    } else {
        match sp_parse_method(s, i) {
            Ok((m, k)) => Ok((ItemV::Method(m), k)),
            Err(e) => Err(e),
        }
    }
}

/// A list of items, up to a closing brace when `braced`, else to the end of
/// the source.
pub open spec fn sp_parse_items(s: Seq<char>, i: int, braced: bool) -> Result<
    (Seq<ItemV>, int),
    ErrorV,
>
    decreases remaining(s, i), 2int,
{
    let j = sp_skip_ws(s, i);
    if braced && j < s.len() && s[j] == '}' {
        Ok((Seq::empty(), j + 1))
    } else if j >= s.len() {
        if braced {
            Err(err_at(ErrorKind::Syntax, j as usize, "expected `}`"@))
        } else {
            Ok((Seq::empty(), j))
        }
    } else {
        match sp_parse_item(s, i) {
            Ok((item, k)) => match sp_parse_items(s, bump(i, k), braced) {
                Ok((rest, m)) => Ok((seq![item] + rest, m)),
                Err(e) => Err(e),
            },
            Err(e) => Err(e),
        }
    }
}

/// The whole declaration source: `path = "..." ;` followed by items running
/// to the end of the source.
pub open spec fn sp_parse_root(s: Seq<char>) -> Result<RootV, ErrorV> {
    match sp_parse_kw(s, 0, "path"@) {
        Ok(j) => match sp_expect(s, j, '=', "expected `=`"@) {
            Ok(j2) => match sp_parse_string_lit(s, j2) {
                Ok((val, st, j3)) => match sp_expect(s, j3, ';', "expected `;`"@) {
                    Ok(j4) => match sp_parse_items(s, j4, false) {
                        Ok((items, _)) => Ok(
                            RootV { spec_path: val, spec_path_pos: st as usize, items },
                        ),
                        Err(e) => Err(e),
                    },
                    Err(e) => Err(e),
                },
                Err(e) => Err(e),
            },
            Err(e) => Err(e),
        },
        Err(e) => Err(e),
    }
}

} // verus!

verus! {

/// Bounds of the identifier scanner.
proof fn lemma_ident_end_bounds(s: Seq<char>, i: int)
    requires
        0 <= i <= s.len(),
    ensures
        i <= sp_ident_end(s, i) <= s.len(),
    decreases remaining(s, i),
{
    if i < s.len() && is_ident_char(s[i]) {
        lemma_ident_end_bounds(s, i + 1);
    }
}

fn ws(c: char) -> (r: bool)
    ensures
        r == is_ws(c),
{
    c == ' ' || c == '\n' || c == '\t' || c == '\r'
}

fn ident_start(c: char) -> (r: bool)
    ensures
        r == is_ident_start(c),
{
    let u = c as u32;
    (97 <= u && u <= 122) || (65 <= u && u <= 90) || c == '_'
}

fn ident_char(c: char) -> (r: bool)
    ensures
        r == is_ident_char(c),
{
    let u = c as u32;
    ident_start(c) || (48 <= u && u <= 57)
}

fn skip_ws(v: &Vec<char>, i: usize) -> (r: usize)
    requires
        i <= v.len(),
    ensures
        r as int == sp_skip_ws(v@, i as int),
        i <= r <= v.len(),
{
    let mut j = i;
    while j < v.len() && ws(v[j])
        invariant
            i <= j <= v.len(),
            sp_skip_ws(v@, i as int) == sp_skip_ws(v@, j as int),
        decreases v.len() - j,
    {
        j = j + 1;
    }
    j
}

fn ident_end(v: &Vec<char>, i: usize) -> (r: usize)
    requires
        i <= v.len(),
    ensures
        r as int == sp_ident_end(v@, i as int),
        i <= r <= v.len(),
{
    let mut j = i;
    while j < v.len() && ident_char(v[j])
        invariant
            i <= j <= v.len(),
            sp_ident_end(v@, i as int) == sp_ident_end(v@, j as int),
        decreases v.len() - j,
    {
        j = j + 1;
    }
    j
}

fn quote_end(v: &Vec<char>, i: usize) -> (r: usize)
    requires
        i <= v.len(),
    ensures
        r as int == sp_quote_end(v@, i as int),
        i <= r <= v.len(),
{
    let mut j = i;
    while j < v.len() && v[j] != '"'
        invariant
            i <= j <= v.len(),
            sp_quote_end(v@, i as int) == sp_quote_end(v@, j as int),
        decreases v.len() - j,
    {
        j = j + 1;
    }
    j
}

/// The characters of `v` between `a` and `b`, as an owned string.
pub(crate) fn scan_chars(v: &Vec<char>, a: usize, b: usize) -> (r: String)
    requires
        a <= b <= v.len(),
    ensures
        r@ == v@.subrange(a as int, b as int),
{
    let mut r = String::new();
    let mut k = a;
    while k < b
        invariant
            a <= k <= b <= v.len(),
            r@ == v@.subrange(a as int, k as int),
        decreases b - k,
    {
        push_char(&mut r, v[k]);
        proof {
            assert(v@.subrange(a as int, (k + 1) as int) =~= v@.subrange(a as int, k as int).push(
                v@[k as int],
            ));
        }
        k = k + 1;
    }
    r
}

/// Parse an identifier token: its text, its start, and the position after.
pub fn parse_ident(v: &Vec<char>, i: usize) -> (r: Result<(String, usize, usize), Error>)
    requires
        i <= v.len(),
    ensures
        match r {
            Ok(t) => sp_parse_ident(v@, i as int) == Ok::<_, ErrorV>((t.0@, t.1 as int, t.2 as int))
                && i <= t.1 < t.2 <= v.len(),
            Err(e) => sp_parse_ident(v@, i as int) == Err::<(Seq<char>, int, int), _>(
                e.deep_view(),
            ),
        },
{
    let j = skip_ws(v, i);
    if j < v.len() && ident_start(v[j]) {
        let k = ident_end(v, j);
        proof {
            assert(sp_ident_end(v@, j as int) == sp_ident_end(v@, j + 1));
            lemma_ident_end_bounds(v@, j + 1);
        }
        let name = scan_chars(v, j, k);
        Ok((name, j, k))
    } else {
        Err(Error::at(ErrorKind::Syntax, j, "expected an identifier"))
    }
}

/// Parse a required punctuation character.
pub fn expect(v: &Vec<char>, i: usize, c: char, msg: &str) -> (r: Result<usize, Error>)
    requires
        i <= v.len(),
    ensures
        match r {
            Ok(j) => sp_expect(v@, i as int, c, msg@) == Ok::<_, ErrorV>(j as int) && i < j
                <= v.len(),
            Err(e) => sp_expect(v@, i as int, c, msg@) == Err::<int, _>(e.deep_view()),
        },
{
    let j = skip_ws(v, i);
    if j < v.len() && v[j] == c {
        Ok(j + 1)
    } else {
        Err(Error::at(ErrorKind::Syntax, j, msg))
    }
}

/// Parse an optional `pub` marker.
pub fn parse_vis(v: &Vec<char>, i: usize) -> (r: (Vis, usize))
    requires
        i <= v.len(),
    ensures
        (r.0, r.1 as int) == sp_parse_vis(v@, i as int),
        i <= r.1 <= v.len(),
{
    let j = skip_ws(v, i);
    if j < v.len() && ident_start(v[j]) {
        let k = ident_end(v, j);
        let name = scan_chars(v, j, k);
        if str_is(&name, "pub") {
            return (Vis::Public, k);
        }
    }
    (Vis::Inherited, i)
}

/// Whether the next token is the keyword `mod`.
fn at_kw_mod(v: &Vec<char>, i: usize) -> (r: bool)
    requires
        i <= v.len(),
    ensures
        r == sp_at_kw_mod(v@, i as int),
{
    let j = skip_ws(v, i);
    if j < v.len() && ident_start(v[j]) {
        let k = ident_end(v, j);
        let name = scan_chars(v, j, k);
        str_is(&name, "mod")
    } else {
        false
    }
}

/// Parse a required keyword.
pub fn parse_kw(v: &Vec<char>, i: usize, kw: &str) -> (r: Result<usize, Error>)
    requires
        i <= v.len(),
    ensures
        match r {
            Ok(j) => sp_parse_kw(v@, i as int, kw@) == Ok::<_, ErrorV>(j as int) && i < j
                <= v.len(),
            Err(e) => sp_parse_kw(v@, i as int, kw@) == Err::<int, _>(e.deep_view()),
        },
{
    let j0 = skip_ws(v, i);
    match parse_ident(v, i) {
        Ok((name, _st, j)) => {
            if str_is(&name, kw) {
                Ok(j)
            } else {
                Err(Error::about(ErrorKind::Syntax, Some(j0), "expected keyword: ", kw))
            }
        },
        Err(_) => Err(Error::about(ErrorKind::Syntax, Some(j0), "expected keyword: ", kw)),
    }
}

/// Parse a double-quoted string literal.
pub fn parse_string_lit(v: &Vec<char>, i: usize) -> (r: Result<(String, usize, usize), Error>)
    requires
        i <= v.len(),
    ensures
        match r {
            Ok(t) => sp_parse_string_lit(v@, i as int) == Ok::<_, ErrorV>(
                (t.0@, t.1 as int, t.2 as int),
            ) && i <= t.1 < t.2 <= v.len(),
            Err(e) => sp_parse_string_lit(v@, i as int) == Err::<(Seq<char>, int, int), _>(
                e.deep_view(),
            ),
        },
{
    let j = skip_ws(v, i);
    if j < v.len() && v[j] == '"' {
        let k = quote_end(v, j + 1);
        if k < v.len() {
            let val = scan_chars(v, j + 1, k);
            Ok((val, j, k + 1))
        } else {
            Err(Error::at(ErrorKind::Syntax, j, "unterminated string literal"))
        }
    } else {
        Err(Error::at(ErrorKind::Syntax, j, "expected a string literal"))
    }
}

impl MethodType {
    /// Parse a verb token.
    pub fn parse(v: &Vec<char>, i: usize) -> (r: Result<(MethodType, usize), Error>)
        requires
            i <= v.len(),
        ensures
            match r {
                Ok(t) => sp_parse_method_type(v@, i as int) == Ok::<_, ErrorV>(
                    (t.0, t.1 as int),
                ) && i < t.1 <= v.len(),
                Err(e) => sp_parse_method_type(v@, i as int) == Err::<(MethodType, int), _>(
                    e.deep_view(),
                ),
            },
    {
        match parse_ident(v, i) {
            Ok((name, st, j)) => {
                if str_is(&name, "GET") {
                    Ok((MethodType::Get(st), j))
                } else if str_is(&name, "POST") {
                    Ok((MethodType::Post(st), j))
                } else if str_is(&name, "PUT") {
                    Ok((MethodType::Put(st), j))
                } else if str_is(&name, "DELETE") {
                    Ok((MethodType::Delete(st), j))
                } else if str_is(&name, "PATCH") {
                    Ok((MethodType::Patch(st), j))
                } else {
                    Err(Error::at(ErrorKind::Syntax, st, "Invalid method"))
                }
            },
            Err(e) => Err(e),
        }
    }
}

} // verus!

verus! {

use crate::util::lemma_vec_dv_cons;

impl MethodPath {
    /// Parse a declared path: zero or more `/segment` or `/{segment}` steps.
    pub fn parse(v: &Vec<char>, i: usize) -> (r: Result<(MethodPath, usize), Error>)
        requires
            i <= v.len(),
        ensures
            match r {
                Ok(t) => sp_parse_path_segs(v@, i as int) == Ok::<_, ErrorV>(
                    (t.0.segments.deep_view(), t.1 as int),
                ) && i <= t.1 <= v.len(),
                Err(e) => sp_parse_path_segs(v@, i as int) == Err::<(Seq<PathSegV>, int), _>(
                    e.deep_view(),
                ),
            },
        decreases v.len() - i,
    {
        let j = skip_ws(v, i);
        if j < v.len() && v[j] == '/' {
            let a = skip_ws(v, j + 1);
            if a < v.len() && v[a] == '{' {
                match parse_ident(v, a + 1) {
                    Ok((name, st, m)) => match expect(v, m, '}', "expected `}`") {
                        Ok(n) => match Self::parse(v, n) {
                            Ok((mut rest, end)) => {
                                let seg = PathSeg { name, is_param: true, pos: st };
                                let ghost rest0 = rest.segments;
                                rest.segments.insert(0, seg);
                                proof {
                                    lemma_vec_dv_cons(rest0, rest.segments, seg);
                                }
                                Ok((rest, end))
                            },
                            Err(e) => Err(e),
                        },
                        Err(e) => Err(e),
                    },
                    Err(e) => Err(e),
                }
            } else {
                match parse_ident(v, j + 1) {
                    Ok((name, st, m)) => match Self::parse(v, m) {
                        Ok((mut rest, end)) => {
                            let seg = PathSeg { name, is_param: false, pos: st };
                            let ghost rest0 = rest.segments;
                            rest.segments.insert(0, seg);
                            proof {
                                lemma_vec_dv_cons(rest0, rest.segments, seg);
                            }
                            Ok((rest, end))
                        },
                        Err(e) => Err(e),
                    },
                    Err(e) => Err(e),
                }
            }
        } else {
            let p = MethodPath { segments: Vec::new() };
            proof {
                assert(p.segments.deep_view() =~= Seq::<PathSegV>::empty());
            }
            Ok((p, i))
        }
    }
}

impl MethodItem {
    /// Parse a method declaration: verb, path, `as`, visibility, name, `;`.
    pub fn parse(v: &Vec<char>, i: usize) -> (r: Result<(MethodItem, usize), Error>)
        requires
            i <= v.len(),
        ensures
            match r {
                Ok(t) => sp_parse_method(v@, i as int) == Ok::<_, ErrorV>(
                    (t.0.deep_view(), t.1 as int),
                ) && i < t.1 <= v.len(),
                Err(e) => sp_parse_method(v@, i as int) == Err::<(MethodItemV, int), _>(
                    e.deep_view(),
                ),
            },
    {
        match MethodType::parse(v, i) {
            Ok((mt, j)) => match MethodPath::parse(v, j) {
                Ok((path, j2)) => match parse_kw(v, j2, "as") {
                    Ok(j3) => {
                        let (vis, j4) = parse_vis(v, j3);
                        match parse_ident(v, j4) {
                            Ok((name, _, j5)) => match expect(v, j5, ';', "expected `;`") {
                                Ok(j6) => Ok(
                                    (
                                        MethodItem {
                                            method_ty: mt,
                                            path,
                                            struct_vis: vis,
                                            struct_name: name,
                                        },
                                        j6,
                                    ),
                                ),
                                Err(e) => Err(e),
                            },
                            Err(e) => Err(e),
                        }
                    },
                    Err(e) => Err(e),
                },
                Err(e) => Err(e),
            },
            Err(e) => Err(e),
        }
    }
}

impl ModuleItem {
    /// Parse a module declaration: visibility, `mod`, name, braced items.
    pub fn parse(v: &Vec<char>, i: usize) -> (r: Result<(ModuleItem, usize), Error>)
        requires
            i <= v.len(),
        ensures
            match r {
                Ok(t) => sp_parse_module(v@, i as int) == Ok::<_, ErrorV>(
                    (t.0.deep_view(), t.1 as int),
                ) && i < t.1 <= v.len(),
                Err(e) => sp_parse_module(v@, i as int) == Err::<(ModuleItemV, int), _>(
                    e.deep_view(),
                ),
            },
        decreases v.len() - i, 0int,
    {
        let (vis, j) = parse_vis(v, i);
        match parse_kw(v, j, "mod") {
            Ok(j2) => match parse_ident(v, j2) {
                Ok((name, _, j3)) => match expect(v, j3, '{', "expected `{`") {
                    Ok(j4) => match parse_items(v, j4, true) {
                        Ok((items, j5)) => {
                            let m = ModuleItem { vis, name, items };
                            proof {
                                lemma_items_dv_is_deep_view(m.items);
                            }
                            Ok((m, j5))
                        },
                        Err(e) => Err(e),
                    },
                    Err(e) => Err(e),
                },
                Err(e) => Err(e),
            },
            Err(e) => Err(e),
        }
    }
}

impl Item {
    /// Parse one item: a module where the `mod` keyword follows the optional
    /// visibility, otherwise a method.
    pub fn parse(v: &Vec<char>, i: usize) -> (r: Result<(Item, usize), Error>)
        requires
            i <= v.len(),
        ensures
            match r {
                Ok(t) => sp_parse_item(v@, i as int) == Ok::<_, ErrorV>(
                    (t.0.deep_view(), t.1 as int),
                ) && i < t.1 <= v.len(),
                Err(e) => sp_parse_item(v@, i as int) == Err::<(ItemV, int), _>(e.deep_view()),
            },
        decreases v.len() - i, 1int,
    {
        let (_, j) = parse_vis(v, i);
        if at_kw_mod(v, j) {
            match ModuleItem::parse(v, i) {
                Ok((m, k)) => Ok((Item::Module(m), k)),
                Err(e) => Err(e),
            }
        } else {
            match MethodItem::parse(v, i) {
                Ok((m, k)) => Ok((Item::Method(m), k)),
                Err(e) => Err(e),
            }
        }
    }
}

/// Parse a list of items, up to `}` when `braced`, else to the end.
pub fn parse_items(v: &Vec<char>, i: usize, braced: bool) -> (r: Result<(Vec<Item>, usize), Error>)
    requires
        i <= v.len(),
    ensures
        match r {
            Ok(t) => sp_parse_items(v@, i as int, braced) == Ok::<_, ErrorV>(
                (t.0.deep_view(), t.1 as int),
            ) && i <= t.1 <= v.len(),
            Err(e) => sp_parse_items(v@, i as int, braced) == Err::<(Seq<ItemV>, int), _>(
                e.deep_view(),
            ),
        },
    decreases v.len() - i, 2int,
{
    let j = skip_ws(v, i);
    if braced && j < v.len() && v[j] == '}' {
        let out: Vec<Item> = Vec::new();
        proof {
            assert(out.deep_view() =~= Seq::<ItemV>::empty());
        }
        Ok((out, j + 1))
    } else if j >= v.len() {
        if braced {
            Err(Error::at(ErrorKind::Syntax, j, "expected `}`"))
        } else {
            let out: Vec<Item> = Vec::new();
            proof {
                assert(out.deep_view() =~= Seq::<ItemV>::empty());
            }
            Ok((out, j))
        }
    } else {
        match Item::parse(v, i) {
            Ok((item, k)) => match parse_items(v, k, braced) {
                Ok((mut rest, m)) => {
                    let ghost rest0 = rest;
                    let ghost itemg = item;
                    rest.insert(0, item);
                    proof {
                        lemma_vec_dv_cons(rest0, rest, itemg);
                    }
                    Ok((rest, m))
                },
                Err(e) => Err(e),
            },
            Err(e) => Err(e),
        }
    }
}

impl Root {
    /// Parse the whole declaration source.
    pub fn parse(source: &str) -> (r: Result<Root, Error>)
        ensures
            match r {
                Ok(root) => sp_parse_root(source@) == Ok::<_, ErrorV>(root.deep_view()),
                Err(e) => sp_parse_root(source@) == Err::<RootV, _>(e.deep_view()),
            },
    {
        let v = chars_of(source);
        match parse_kw(&v, 0, "path") {
            Ok(j) => match expect(&v, j, '=', "expected `=`") {
                Ok(j2) => match parse_string_lit(&v, j2) {
                    Ok((val, st, j3)) => match expect(&v, j3, ';', "expected `;`") {
                        Ok(j4) => match parse_items(&v, j4, false) {
                            Ok((items, _)) => Ok(
                                Root { spec_path: val, spec_path_pos: st, items },
                            ),
                            Err(e) => Err(e),
                        },
                        Err(e) => Err(e),
                    },
                    Err(e) => Err(e),
                },
                Err(e) => Err(e),
            },
            Err(e) => Err(e),
        }
    }
}

} // verus!
