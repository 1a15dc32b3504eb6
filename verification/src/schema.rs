use vstd::prelude::*;

verus! {

broadcast use vstd::std_specs::vec::axiom_vec_index_decreases,
    crate::util::lemma_seq_concat_assoc,
    crate::util::lemma_seq_push_is_concat;

use crate::err::{err_nowhere, Error, ErrorKind, ErrorV};
use crate::parsing::{bump, remaining};
use crate::util::{chars_of, str_is};

/// The host primitive a primitive schema kind maps to.
#[derive(Clone, Copy, PartialEq, Eq, Structural, Debug)]
pub enum Prim {
    Text,
    Number,
    Integer,
    Boolean,
}

/// The extraction strategy a request body is bound to, selected by its media
/// type. Each strategy also designates the error variant an extraction
/// failure is reported under.
#[derive(Clone, Copy, PartialEq, Eq, Structural, Debug)]
pub enum Strategy {
    Json,
    Form,
    Multipart,
    Text,
    Bytes,
}

/// A generated type: a host primitive, a locally declared name, a component
/// reference qualified by parent-scope hops, a sequence, an optional
/// wrapper, or a built-in extractor type.
#[derive(Debug)]
pub enum GenType {
    Primitive(Prim),
    Named(String),
    Component { hops: usize, name: String },
    Sequence(Box<GenType>),
    Optional(Box<GenType>),
    BuiltIn(Strategy),
}

/// Model of a [`GenType`].
pub enum GenTypeV {
    Primitive(Prim),
    Named(Seq<char>),
    Component { hops: usize, name: Seq<char> },
    Sequence(Box<GenTypeV>),
    Optional(Box<GenTypeV>),
    BuiltIn(Strategy),
}

/// Model of a [`GenType`], defined recursively.
pub open spec fn gt_dv(t: GenType) -> GenTypeV
    decreases t,
{
    match t {
        GenType::Primitive(p) => GenTypeV::Primitive(p),
        GenType::Named(n) => GenTypeV::Named(n@),
        GenType::Component { hops, name } => GenTypeV::Component { hops, name: name@ },
        GenType::Sequence(b) => GenTypeV::Sequence(Box::new(gt_dv(*b))),
        GenType::Optional(b) => GenTypeV::Optional(Box::new(gt_dv(*b))),
        GenType::BuiltIn(s) => GenTypeV::BuiltIn(s),
    }
}

impl DeepView for GenType {
    type V = GenTypeV;

    open spec fn deep_view(&self) -> GenTypeV {
        gt_dv(*self)
    }
}

/// One field of a generated record: its name, its type, and whether it is
/// wrapped in an optional.
#[derive(Debug)]
pub struct Field {
    pub name: String,
    pub ty: GenType,
    pub optional: bool,
}

/// Model of a [`Field`].
pub struct FieldV {
    pub name: Seq<char>,
    pub ty: GenTypeV,
    pub optional: bool,
}

impl DeepView for Field {
    type V = FieldV;

    open spec fn deep_view(&self) -> FieldV {
        FieldV { name: self.name@, ty: gt_dv(self.ty), optional: self.optional }
    }
}

/// One variant of a generated sum type: its tag and its payload type.
#[derive(Debug)]
pub struct Variant {
    pub name: String,
    pub ty: GenType,
}

/// Model of a [`Variant`].
pub struct VariantV {
    pub name: Seq<char>,
    pub ty: GenTypeV,
}

impl DeepView for Variant {
    type V = VariantV;

    open spec fn deep_view(&self) -> VariantV {
        VariantV { name: self.name@, ty: gt_dv(self.ty) }
    }
}

/// A generated named type declaration: a record, a sum type, or an alias.
#[derive(Debug)]
pub enum Decl {
    Record { name: String, fields: Vec<Field> },
    Choice { name: String, variants: Vec<Variant> },
    Alias { name: String, ty: GenType },
}

/// Model of a [`Decl`].
pub enum DeclV {
    Record { name: Seq<char>, fields: Seq<FieldV> },
    Choice { name: Seq<char>, variants: Seq<VariantV> },
    Alias { name: Seq<char>, ty: GenTypeV },
}

impl DeepView for Decl {
    type V = DeclV;

    open spec fn deep_view(&self) -> DeclV {
        match *self {
            Decl::Record { name, fields } => DeclV::Record {
                name: name@,
                fields: fields.deep_view(),
            },
            Decl::Choice { name, variants } => DeclV::Choice {
                name: name@,
                variants: variants.deep_view(),
            },
            Decl::Alias { name, ty } => DeclV::Alias { name: name@, ty: gt_dv(ty) },
        }
    }
}

/// `hops` copies of the parent-scope step `super::`.
pub open spec fn supers(h: int) -> Seq<char>
    decreases h,
{
    if h <= 0 {
        Seq::empty()
    } else {
        supers(h - 1) + "super::"@
    }
}

/// The name of the host primitive a primitive kind maps to.
pub open spec fn prim_name(p: Prim) -> Seq<char> {
    match p {
        Prim::Text => "String"@,
        Prim::Number => "f64"@,
        Prim::Integer => "i64"@,
        Prim::Boolean => "bool"@,
    }
}

/// The host path of the built-in extractor type a strategy carries.
pub open spec fn builtin_path(s: Strategy) -> Seq<char> {
    match s {
        Strategy::Json => "::axum::extract::Json"@,
        Strategy::Form => "::axum::extract::Form"@,
        Strategy::Multipart => "::axum::extract::Multipart"@,
        Strategy::Text => "::axum::extract::Text"@,
        Strategy::Bytes => "::axum::extract::Bytes"@,
    }
}

/// How a generated type is written in the emitted source.
pub open spec fn render_type(t: GenTypeV) -> Seq<char>
    decreases t,
{
    match t {
        GenTypeV::Primitive(p) => prim_name(p),
        GenTypeV::Named(n) => n,
        GenTypeV::Component { hops, name } => supers(hops as int) + "schemas::"@ + name,
        GenTypeV::Sequence(b) => "Vec<"@ + render_type(*b) + ">"@,
        GenTypeV::Optional(b) => "Option<"@ + render_type(*b) + ">"@,
        GenTypeV::BuiltIn(s) => builtin_path(s),
    }
}

impl GenType {
    /// Write this generated type as source text.
    pub fn render(&self) -> (r: String)
        ensures
            r@ == render_type(self.deep_view()),
        decreases *self,
    {
        match self {
            GenType::Primitive(p) => match p {
                Prim::Text => "String".to_owned(),
                Prim::Number => "f64".to_owned(),
                Prim::Integer => "i64".to_owned(),
                Prim::Boolean => "bool".to_owned(),
            },
            GenType::Named(n) => n.clone(),
            GenType::Component { hops, name } => {
                let mut out = String::new();
                let mut k: usize = 0;
                while k < *hops
                    invariant
                        k <= *hops,
                        out@ == supers(k as int),
                    decreases *hops - k,
                {
                    out.append("super::");
                    k = k + 1;
                }
                out.append("schemas::");
                out.append(name.as_str());
                out
            },
            GenType::Sequence(b) => {
                let inner = (&**b).render();
                let mut out = "Vec<".to_owned();
                out.append(inner.as_str());
                out.append(">");
                out
            },
            GenType::Optional(b) => {
                let inner = (&**b).render();
                let mut out = "Option<".to_owned();
                out.append(inner.as_str());
                out.append(">");
                out
            },
            GenType::BuiltIn(s) => match s {
                Strategy::Json => "::axum::extract::Json".to_owned(),
                Strategy::Form => "::axum::extract::Form".to_owned(),
                Strategy::Multipart => "::axum::extract::Multipart".to_owned(),
                Strategy::Text => "::axum::extract::Text".to_owned(),
                Strategy::Bytes => "::axum::extract::Bytes".to_owned(),
            },
        }
    }
}

/// First position at or after `i` holding `c`, or the end.
pub open spec fn sp_find_char(s: Seq<char>, i: int, c: char) -> int
    decreases remaining(s, i),
{
    if 0 <= i && i < s.len() {
        if s[i] == c {
            i
        } else {
            sp_find_char(s, i + 1, c)
        }
    } else {
        s.len() as int
    }
}

/// First position at or after `i` where `::` starts, or the end.
pub open spec fn sp_find_dcolon(s: Seq<char>, i: int) -> int
    decreases remaining(s, i),
{
    if 0 <= i && i + 1 < s.len() {
        if s[i] == ':' && s[i + 1] == ':' {
            i
        } else {
            sp_find_dcolon(s, i + 1)
        }
    } else {
        s.len() as int
    }
}

/// The text after the last `::` at or after `i`; the whole tail when none
/// occurs.
pub open spec fn sp_last_dcolon_seg(s: Seq<char>, i: int) -> Seq<char>
    decreases remaining(s, i),
{
    let j = sp_find_dcolon(s, i);
    if j < s.len() {
        sp_last_dcolon_seg(s, bump(i, j + 2))
    } else {
        s.subrange(i, s.len() as int)
    }
}

/// The text after the last `/` at or after `i`; the whole tail when none
/// occurs.
pub open spec fn sp_last_slash_seg(s: Seq<char>, i: int) -> Seq<char>
    decreases remaining(s, i),
{
    let j = sp_find_char(s, i, '/');
    if j < s.len() {
        sp_last_slash_seg(s, bump(i, j + 1))
    } else {
        s.subrange(i, s.len() as int)
    }
}

fn find_char(v: &Vec<char>, i: usize, c: char) -> (r: usize)
    requires
        i <= v.len(),
    ensures
        r as int == sp_find_char(v@, i as int, c),
        i <= r <= v.len(),
        r < v.len() ==> v@[r as int] == c,
{
    let mut j = i;
    while j < v.len() && v[j] != c
        invariant
            i <= j <= v.len(),
            sp_find_char(v@, i as int, c) == sp_find_char(v@, j as int, c),
        decreases v.len() - j,
    {
        j = j + 1;
    }
    j
}

fn find_dcolon(v: &Vec<char>, i: usize) -> (r: usize)
    requires
        i <= v.len(),
    ensures
        r as int == sp_find_dcolon(v@, i as int),
        i <= r <= v.len(),
        (r as int) < v.len() - 1 ==> v@[r as int] == ':' && v@[r as int + 1] == ':',
        r < v.len() ==> (r as int) < v.len() - 1,
{
    let mut j = i;
    while j < v.len()
        invariant
            i <= j <= v.len(),
            sp_find_dcolon(v@, i as int) == sp_find_dcolon(v@, j as int),
        decreases v.len() - j,
    {
        if j + 1 < v.len() {
            if v[j] == ':' && v[j + 1] == ':' {
                return j;
            }
            j = j + 1;
        } else {
            return v.len();
        }
    }
    v.len()
}

/// The text after the last `::`, as an owned string.
fn last_dcolon_seg(v: &Vec<char>, i: usize) -> (r: String)
    requires
        i <= v.len(),
    ensures
        r@ == sp_last_dcolon_seg(v@, i as int),
    decreases v.len() - i,
{
    let j = find_dcolon(v, i);
    if j < v.len() {
        last_dcolon_seg(v, j + 2)
    } else {
        crate::parsing::scan_chars(v, i, v.len())
    }
}

/// The text after the last `/`, as an owned string.
fn last_slash_seg(v: &Vec<char>, i: usize) -> (r: String)
    requires
        i <= v.len(),
    ensures
        r@ == sp_last_slash_seg(v@, i as int),
    decreases v.len() - i,
{
    let j = find_char(v, i, '/');
    if j < v.len() {
        last_slash_seg(v, j + 1)
    } else {
        crate::parsing::scan_chars(v, i, v.len())
    }
}

/// The final path component of a component reference such as
/// `#/components/schemas/Name`.
pub open spec fn ref_final_name(ref_path: Seq<char>) -> Seq<char> {
    sp_last_slash_seg(ref_path, 0)
}

/// Executable form of [`ref_final_name`].
pub fn ref_final_name_of(ref_path: &String) -> (r: String)
    ensures
        r@ == ref_final_name(ref_path@),
{
    let v = chars_of(ref_path.as_str());
    last_slash_seg(&v, 0)
}

/// The tag of a sum-type variant: the last path segment of its compiled
/// type, recast to upper camel case.
pub open spec fn variant_tag(t: GenTypeV) -> Seq<char> {
    crate::util::upper_camel_of(sp_last_dcolon_seg(render_type(t), 0))
}

/// Executable form of [`variant_tag`].
pub fn variant_tag_of(t: &GenType) -> (r: String)
    ensures
        r@ == variant_tag(t.deep_view()),
{
    let rendered = t.render();
    let v = chars_of(rendered.as_str());
    let seg = last_dcolon_seg(&v, 0);
    crate::util::to_upper_camel(seg.as_str())
}

/// The media supertype: the text before the first `/`, or the whole name.
pub open spec fn media_supertype(media: Seq<char>) -> Seq<char> {
    media.subrange(0, sp_find_char(media, 0, '/'))
}

/// The media subtype: the text after the last `/`, or the whole name.
pub open spec fn media_subtype(media: Seq<char>) -> Seq<char> {
    sp_last_slash_seg(media, 0)
}

/// The extraction strategy a media type selects: JSON and form-urlencoded
/// bodies compile their schema; multipart and `text/*` bind built-in
/// strategies; anything else falls back to raw bytes.
pub open spec fn strategy_for(media: Seq<char>) -> Strategy {
    let sup = media_supertype(media);
    let sub = media_subtype(media);
    if sup == "application"@ && sub == "json"@ {
        Strategy::Json
    } else if sup == "application"@ && sub == "x-www-form-urlencoded"@ {
        Strategy::Form
    } else if sup == "multipart"@ && sub == "form-data"@ {
        Strategy::Multipart
    } else if sup == "text"@ {
        Strategy::Text
    } else {
        Strategy::Bytes
    }
}

/// Executable form of [`strategy_for`].
pub fn strategy_of(media: &String) -> (r: Strategy)
    ensures
        r == strategy_for(media@),
{
    let v = chars_of(media.as_str());
    let cut = find_char(&v, 0, '/');
    let sup = crate::parsing::scan_chars(&v, 0, cut);
    let sub = last_slash_seg(&v, 0);
    if str_is(&sup, "application") && str_is(&sub, "json") {
        Strategy::Json
    } else if str_is(&sup, "application") && str_is(&sub, "x-www-form-urlencoded") {
        Strategy::Form
    } else if str_is(&sup, "multipart") && str_is(&sub, "form-data") {
        Strategy::Multipart
    } else if str_is(&sup, "text") {
        Strategy::Text
    } else {
        Strategy::Bytes
    }
}

} // verus!

// ---------------------------------------------------------------------------
// The schema compiler: one schema node in, one generated type out, with any
// newly generated named declarations appended to a sink in emission order.
// ---------------------------------------------------------------------------

verus! {

use crate::model::{
    lemma_props_dv_is_deep_view, lemma_sors_dv_is_deep_view, node_dv, Param, ParamV, Property,
    PropertyV, SchemaKind, SchemaNode, SchemaNodeV, SchemaOrRef, SchemaOrRefV,
};
use crate::util::{names_contain, seq_has_name};



/// An explicitly supplied title takes precedence over the node's own; with
/// neither, the schema is anonymous and naming it fails.
pub open spec fn sp_merge_titles(title: Option<Seq<char>>, node_title: Option<Seq<char>>) -> Result<
    Seq<char>,
    ErrorV,
> {
    match title {
        Some(t) => Ok(t),
        None => match node_title {
            Some(t) => Ok(t),
            None => Err(
                err_nowhere(
                    ErrorKind::Schema,
                    "Anonymous schemas are not supported: add a `title`, or create a schema in `components/schemas` and reference it"@,
                ),
            ),
        },
    }
}

/// What compiling a schema node or reference yields: the type to use at the
/// point of reference, and the named declarations generated along the way.
pub open spec fn sp_compile_schema(sv: SchemaOrRefV, title: Option<Seq<char>>, depth: usize) -> Result<
    (GenTypeV, Seq<DeclV>),
    ErrorV,
>
    decreases sv, 5int,
{
    match sv {
        SchemaOrRefV::Reference { ref_path } => Ok(
            (
                GenTypeV::Component { hops: depth, name: ref_final_name(ref_path) },
                Seq::empty(),
            ),
        ),
        SchemaOrRefV::Inline(n) => sp_compile_node(n, title, depth),
    }
}

/// What compiling an inline schema node yields.
pub open spec fn sp_compile_node(n: SchemaNodeV, title: Option<Seq<char>>, depth: usize) -> Result<
    (GenTypeV, Seq<DeclV>),
    ErrorV,
>
    decreases n, 4int,
{
    if n.has_all_of || n.has_any_of {
        Err(err_nowhere(ErrorKind::Schema, "allOf and anyOf are not (yet) supported"@))
    } else if n.one_of.len() > 0 {
        sp_compile_one_of(n, title, depth)
    } else {
        match n.kind {
            None => Err(
                err_nowhere(ErrorKind::Schema, "schema is missing `schema_type` and `one_of`"@),
            ),
            Some(SchemaKind::Object) => sp_compile_object(n, title, depth),
            Some(SchemaKind::Array) => sp_compile_array(n, title, depth),
            Some(SchemaKind::Text) => sp_compile_base(Prim::Text, title, n.title),
            Some(SchemaKind::Number) => sp_compile_base(Prim::Number, title, n.title),
            Some(SchemaKind::Integer) => sp_compile_base(Prim::Integer, title, n.title),
            Some(SchemaKind::Boolean) => sp_compile_base(Prim::Boolean, title, n.title),
        }
    }
}

/// An exclusive-choice schema compiles to a named sum type with one variant
/// per alternative, in document order; it must carry a title.
pub open spec fn sp_compile_one_of(n: SchemaNodeV, title: Option<Seq<char>>, depth: usize) -> Result<
    (GenTypeV, Seq<DeclV>),
    ErrorV,
>
    decreases n, 3int,
{
    match sp_merge_titles(title, n.title) {
        Ok(name) => match sp_compile_variants(n.one_of, 0, depth) {
            Ok((variants, ds)) => Ok(
                (GenTypeV::Named(name), ds + seq![DeclV::Choice { name, variants }]),
            ),
            Err(e) => Err(e),
        },
        Err(e) => Err(e),
    }
}

/// The variants of an exclusive-choice schema from index `k` on: each
/// alternative's compiled type, tagged by that type's derived variant tag.
pub open spec fn sp_compile_variants(one_of: Seq<SchemaOrRefV>, k: int, depth: usize) -> Result<
    (Seq<VariantV>, Seq<DeclV>),
    ErrorV,
>
    decreases one_of, one_of.len() - k,
{
    if k < 0 || k >= one_of.len() {
        Ok((Seq::empty(), Seq::empty()))
    } else {
        match sp_compile_schema(one_of[k], None, depth) {
            Ok((ty, ds)) => match sp_compile_variants(one_of, k + 1, depth) {
                Ok((vs, ds2)) => Ok(
                    (seq![VariantV { name: variant_tag(ty), ty }] + vs, ds + ds2),
                ),
                Err(e) => Err(e),
            },
            Err(e) => Err(e),
        }
    }
}

/// An object schema compiles to a named record with one field per declared
/// property, in document order; it must carry a title.
pub open spec fn sp_compile_object(n: SchemaNodeV, title: Option<Seq<char>>, depth: usize) -> Result<
    (GenTypeV, Seq<DeclV>),
    ErrorV,
>
    decreases n, 2int,
{
    match sp_merge_titles(title, n.title) {
        Ok(name) => match sp_compile_props(n.properties, 0, n.required, depth) {
            Ok((fields, ds)) => Ok(
                (GenTypeV::Named(name), ds + seq![DeclV::Record { name, fields }]),
            ),
            Err(e) => Err(e),
        },
        Err(e) => Err(e),
    }
}

/// The fields of an object schema from index `k` on: a property absent from
/// the required-name set compiles to an optional field, a present one to a
/// plain field.
pub open spec fn sp_compile_props(
    props: Seq<PropertyV>,
    k: int,
    required: Seq<Seq<char>>,
    depth: usize,
) -> Result<(Seq<FieldV>, Seq<DeclV>), ErrorV>
    decreases props, props.len() - k,
{
    if k < 0 || k >= props.len() {
        Ok((Seq::empty(), Seq::empty()))
    } else {
        match sp_compile_schema(props[k].schema, None, depth) {
            Ok((ty, ds)) => match sp_compile_props(props, k + 1, required, depth) {
                Ok((fields, ds2)) => Ok(
                    (
                        seq![
                            FieldV {
                                name: props[k].name,
                                ty,
                                optional: !seq_has_name(required, props[k].name),
                            },
                        ] + fields,
                        ds + ds2,
                    ),
                ),
                Err(e) => Err(e),
            },
            Err(e) => Err(e),
        }
    }
}

/// An array schema compiles to a sequence of its single element type; with a
/// title it becomes a named alias, without one it stays unnamed.
pub open spec fn sp_compile_array(n: SchemaNodeV, title: Option<Seq<char>>, depth: usize) -> Result<
    (GenTypeV, Seq<DeclV>),
    ErrorV,
>
    decreases n, 1int,
{
    if n.items.len() == 0 {
        Err(err_nowhere(ErrorKind::Schema, "Array must contain `items` field"@))
    } else {
        match sp_compile_schema(n.items[0], None, depth) {
            Ok((item_ty, ds)) => {
                let ty = GenTypeV::Sequence(Box::new(item_ty));
                match sp_merge_titles(title, n.title) {
                    Ok(name) => Ok(
                        (GenTypeV::Named(name), ds + seq![DeclV::Alias { name, ty }]),
                    ),
                    Err(_) => Ok((ty, ds)),
                }
            },
            Err(e) => Err(e),
        }
    }
}

/// A primitive schema compiles to its host primitive; with a title it
/// becomes a named alias, without one it stays unnamed. It never fails.
pub open spec fn sp_compile_base(
    p: Prim,
    title: Option<Seq<char>>,
    node_title: Option<Seq<char>>,
) -> Result<(GenTypeV, Seq<DeclV>), ErrorV> {
    match sp_merge_titles(title, node_title) {
        Ok(name) => Ok(
            (
                GenTypeV::Named(name),
                seq![DeclV::Alias { name, ty: GenTypeV::Primitive(p) }],
            ),
        ),
        Err(_) => Ok((GenTypeV::Primitive(p), Seq::empty())),
    }
}

/// A parameter must carry an inline schema; its compiled type is wrapped in
/// an optional unless the parameter is marked required.
pub open spec fn sp_compile_param(p: ParamV, depth: usize) -> Result<
    (GenTypeV, Seq<DeclV>),
    ErrorV,
> {
    if p.schema.len() == 0 {
        Err(
            err_nowhere(
                ErrorKind::Schema,
                "Query parameter does not have a schema in OpenAPI spec"@,
            ),
        )
    } else {
        match sp_compile_node(p.schema[0], None, depth) {
            Ok((ty, ds)) => if p.required {
                Ok((ty, ds))
            } else {
                Ok((GenTypeV::Optional(Box::new(ty)), ds))
            },
            Err(e) => Err(e),
        }
    }
}

/// Merge an explicitly supplied title with the node's own.
pub fn try_merge_titles(title: Option<&String>, node_title: &Option<String>) -> (r: Result<
    String,
    Error,
>)
    ensures
        match r {
            Ok(name) => sp_merge_titles(title.deep_view(), node_title.deep_view())
                == Ok::<_, ErrorV>(name@),
            Err(e) => sp_merge_titles(title.deep_view(), node_title.deep_view()) == Err::<
                Seq<char>,
                _,
            >(e.deep_view()),
        },
{
    match title {
        Some(t) => Ok((*t).clone()),
        None => match node_title {
            Some(t) => Ok(t.clone()),
            None => Err(
                Error::nowhere(
                    ErrorKind::Schema,
                    "Anonymous schemas are not supported: add a `title`, or create a schema in `components/schemas` and reference it",
                ),
            ),
        },
    }
}

/// Compile a schema node or reference, appending any newly generated named
/// declarations to `sink` in emission order.
pub fn compile_schema(
    s: &SchemaOrRef,
    title: Option<&String>,
    depth: usize,
    sink: &mut Vec<Decl>,
) -> (r: Result<GenType, Error>)
    ensures
        match r {
            Ok(t) => sp_compile_schema(s.deep_view(), title.deep_view(), depth) matches Ok(p)
                && t.deep_view() == p.0 && final(sink).deep_view() == old(sink).deep_view() + p.1,
            Err(e) => sp_compile_schema(s.deep_view(), title.deep_view(), depth) == Err::<
                (GenTypeV, Seq<DeclV>),
                _,
            >(e.deep_view()),
        },
    decreases *s, 5int,
{
    match s {
        SchemaOrRef::Reference { ref_path } => {
            let name = ref_final_name_of(ref_path);
            proof {
                assert(final(sink).deep_view() =~= old(sink).deep_view() + Seq::<DeclV>::empty());
            }
            Ok(GenType::Component { hops: depth, name })
        },
        SchemaOrRef::Inline(n) => compile_node(n, title, depth, sink),
    }
}

/// Compile an inline schema node.
pub fn compile_node(
    n: &SchemaNode,
    title: Option<&String>,
    depth: usize,
    sink: &mut Vec<Decl>,
) -> (r: Result<GenType, Error>)
    ensures
        match r {
            Ok(t) => sp_compile_node(n.deep_view(), title.deep_view(), depth) matches Ok(p)
                && t.deep_view() == p.0 && final(sink).deep_view() == old(sink).deep_view() + p.1,
            Err(e) => sp_compile_node(n.deep_view(), title.deep_view(), depth) == Err::<
                (GenTypeV, Seq<DeclV>),
                _,
            >(e.deep_view()),
        },
    decreases *n, 4int,
{
    if n.has_all_of || n.has_any_of {
        Err(Error::nowhere(ErrorKind::Schema, "allOf and anyOf are not (yet) supported"))
    } else if n.one_of.len() > 0 {
        compile_one_of(n, title, depth, sink)
    } else {
        match n.kind {
            None => Err(
                Error::nowhere(ErrorKind::Schema, "schema is missing `schema_type` and `one_of`"),
            ),
            Some(SchemaKind::Object) => compile_object(n, title, depth, sink),
            Some(SchemaKind::Array) => compile_array(n, title, depth, sink),
            Some(SchemaKind::Text) => compile_base(Prim::Text, title, &n.title, sink),
            Some(SchemaKind::Number) => compile_base(Prim::Number, title, &n.title, sink),
            Some(SchemaKind::Integer) => compile_base(Prim::Integer, title, &n.title, sink),
            Some(SchemaKind::Boolean) => compile_base(Prim::Boolean, title, &n.title, sink),
        }
    }
}

/// Compile an exclusive-choice schema to a named sum type.
fn compile_one_of(
    n: &SchemaNode,
    title: Option<&String>,
    depth: usize,
    sink: &mut Vec<Decl>,
) -> (r: Result<GenType, Error>)
    ensures
        match r {
            Ok(t) => sp_compile_one_of(n.deep_view(), title.deep_view(), depth) matches Ok(p)
                && t.deep_view() == p.0 && final(sink).deep_view() == old(sink).deep_view() + p.1,
            Err(e) => sp_compile_one_of(n.deep_view(), title.deep_view(), depth) == Err::<
                (GenTypeV, Seq<DeclV>),
                _,
            >(e.deep_view()),
        },
    decreases *n, 3int,
{
    proof {
        lemma_sors_dv_is_deep_view(n.one_of);
    }
    match try_merge_titles(title, &n.title) {
        Ok(name) => match compile_variants(&n.one_of, 0, depth, sink) {
            Ok(variants) => {
                let decl_name = name.clone();
                let decl = Decl::Choice { name: decl_name, variants };
                let ghost sink_mid = *sink;
                let ghost declg = decl;
                sink.push(decl);
                proof {
                    crate::util::lemma_vec_dv_push(sink_mid, *sink, declg);
                }
                Ok(GenType::Named(name))
            },
            Err(e) => Err(e),
        },
        Err(e) => Err(e),
    }
}

} // verus!

verus! {

/// Compile the variants of an exclusive-choice schema from index `k` on.
fn compile_variants(
    one_of: &Vec<SchemaOrRef>,
    k: usize,
    depth: usize,
    sink: &mut Vec<Decl>,
) -> (r: Result<Vec<Variant>, Error>)
    requires
        k <= one_of.len(),
    ensures
        match r {
            Ok(vs) => sp_compile_variants(one_of.deep_view(), k as int, depth) matches Ok(p)
                && vs.deep_view() == p.0 && final(sink).deep_view() == old(sink).deep_view() + p.1,
            Err(e) => sp_compile_variants(one_of.deep_view(), k as int, depth) == Err::<
                (Seq<VariantV>, Seq<DeclV>),
                _,
            >(e.deep_view()),
        },
    decreases *one_of, one_of.len() - k,
{
    if k >= one_of.len() {
        let vs: Vec<Variant> = Vec::new();
        proof {
            assert(vs.deep_view() =~= Seq::<VariantV>::empty());
            assert(old(sink).deep_view() + Seq::<DeclV>::empty() =~= old(sink).deep_view());
        }
        Ok(vs)
    } else {
        match compile_schema(&one_of[k], None, depth, sink) {
            Ok(ty) => {
                let tag = variant_tag_of(&ty);
                match compile_variants(one_of, k + 1, depth, sink) {
                    Ok(rest) => {
                        let mut out = rest;
                        let var = Variant { name: tag, ty };
                        let ghost rest0 = out;
                        let ghost varg = var;
                        out.insert(0, var);
                        proof {
                            crate::util::lemma_vec_dv_cons(rest0, out, varg);
                        }
                        Ok(out)
                    },
                    Err(e) => Err(e),
                }
            },
            Err(e) => Err(e),
        }
    }
}

/// Compile an object schema to a named record.
fn compile_object(
    n: &SchemaNode,
    title: Option<&String>,
    depth: usize,
    sink: &mut Vec<Decl>,
) -> (r: Result<GenType, Error>)
    ensures
        match r {
            Ok(t) => sp_compile_object(n.deep_view(), title.deep_view(), depth) matches Ok(p)
                && t.deep_view() == p.0 && final(sink).deep_view() == old(sink).deep_view() + p.1,
            Err(e) => sp_compile_object(n.deep_view(), title.deep_view(), depth) == Err::<
                (GenTypeV, Seq<DeclV>),
                _,
            >(e.deep_view()),
        },
    decreases *n, 2int,
{
    proof {
        lemma_props_dv_is_deep_view(n.properties);
    }
    match try_merge_titles(title, &n.title) {
        Ok(name) => match compile_props(&n.properties, 0, &n.required, depth, sink) {
            Ok(fields) => {
                let decl_name = name.clone();
                let decl = Decl::Record { name: decl_name, fields };
                let ghost sink_mid = *sink;
                let ghost declg = decl;
                sink.push(decl);
                proof {
                    crate::util::lemma_vec_dv_push(sink_mid, *sink, declg);
                }
                Ok(GenType::Named(name))
            },
            Err(e) => Err(e),
        },
        Err(e) => Err(e),
    }
}

/// Compile the fields of an object schema from index `k` on.
fn compile_props(
    props: &Vec<Property>,
    k: usize,
    required: &Vec<String>,
    depth: usize,
    sink: &mut Vec<Decl>,
) -> (r: Result<Vec<Field>, Error>)
    requires
        k <= props.len(),
    ensures
        match r {
            Ok(fs) => sp_compile_props(props.deep_view(), k as int, required.deep_view(), depth)
                matches Ok(p) && fs.deep_view() == p.0 && final(sink).deep_view() == old(
                sink,
            ).deep_view() + p.1,
            Err(e) => sp_compile_props(props.deep_view(), k as int, required.deep_view(), depth)
                == Err::<(Seq<FieldV>, Seq<DeclV>), _>(e.deep_view()),
        },
    decreases *props, props.len() - k,
{
    if k >= props.len() {
        let fs: Vec<Field> = Vec::new();
        proof {
            assert(fs.deep_view() =~= Seq::<FieldV>::empty());
            assert(old(sink).deep_view() + Seq::<DeclV>::empty() =~= old(sink).deep_view());
        }
        Ok(fs)
    } else {
        match compile_schema(&props[k].schema, None, depth, sink) {
            Ok(ty) => {
                let optional = !names_contain(required, &props[k].name);
                let fname = props[k].name.clone();
                match compile_props(props, k + 1, required, depth, sink) {
                    Ok(rest) => {
                        let mut out = rest;
                        let field = Field { name: fname, ty, optional };
                        let ghost rest0 = out;
                        let ghost fieldg = field;
                        out.insert(0, field);
                        proof {
                            crate::util::lemma_vec_dv_cons(rest0, out, fieldg);
                        }
                        Ok(out)
                    },
                    Err(e) => Err(e),
                }
            },
            Err(e) => Err(e),
        }
    }
}

/// Compile an array schema to a sequence type, named when a title is
/// available.
fn compile_array(
    n: &SchemaNode,
    title: Option<&String>,
    depth: usize,
    sink: &mut Vec<Decl>,
) -> (r: Result<GenType, Error>)
    ensures
        match r {
            Ok(t) => sp_compile_array(n.deep_view(), title.deep_view(), depth) matches Ok(p)
                && t.deep_view() == p.0 && final(sink).deep_view() == old(sink).deep_view() + p.1,
            Err(e) => sp_compile_array(n.deep_view(), title.deep_view(), depth) == Err::<
                (GenTypeV, Seq<DeclV>),
                _,
            >(e.deep_view()),
        },
    decreases *n, 1int,
{
    proof {
        lemma_sors_dv_is_deep_view(n.items);
    }
    if n.items.len() == 0 {
        Err(Error::nowhere(ErrorKind::Schema, "Array must contain `items` field"))
    } else {
        match compile_schema(&n.items[0], None, depth, sink) {
            Ok(item_ty) => {
                let ty = GenType::Sequence(Box::new(item_ty));
                match try_merge_titles(title, &n.title) {
                    Ok(name) => {
                        let decl_name = name.clone();
                        let decl = Decl::Alias { name: decl_name, ty };
                        let ghost sink_mid = *sink;
                        let ghost declg = decl;
                        sink.push(decl);
                        proof {
                            crate::util::lemma_vec_dv_push(sink_mid, *sink, declg);
                        }
                        Ok(GenType::Named(name))
                    },
                    Err(_) => Ok(ty),
                }
            },
            Err(e) => Err(e),
        }
    }
}

/// Compile a primitive schema, named when a title is available.
fn compile_base(
    p: Prim,
    title: Option<&String>,
    node_title: &Option<String>,
    sink: &mut Vec<Decl>,
) -> (r: Result<GenType, Error>)
    ensures
        match r {
            Ok(t) => sp_compile_base(p, title.deep_view(), node_title.deep_view()) matches Ok(q)
                && t.deep_view() == q.0 && final(sink).deep_view() == old(sink).deep_view() + q.1,
            Err(e) => sp_compile_base(p, title.deep_view(), node_title.deep_view()) == Err::<
                (GenTypeV, Seq<DeclV>),
                _,
            >(e.deep_view()),
        },
{
    match try_merge_titles(title, node_title) {
        Ok(name) => {
            let decl_name = name.clone();
            let decl = Decl::Alias { name: decl_name, ty: GenType::Primitive(p) };
            let ghost sink_mid = *sink;
            let ghost declg = decl;
            sink.push(decl);
            proof {
                crate::util::lemma_vec_dv_push(sink_mid, *sink, declg);
                assert(sink.deep_view() =~= old(sink).deep_view() + seq![declg.deep_view()]);
            }
            Ok(GenType::Named(name))
        },
        Err(_) => {
            proof {
                assert(old(sink).deep_view() + Seq::<DeclV>::empty() =~= old(sink).deep_view());
            }
            Ok(GenType::Primitive(p))
        },
    }
}

/// Compile an operation parameter: its inline schema, wrapped in an optional
/// unless the parameter is required.
pub fn compile_param(p: &Param, depth: usize, sink: &mut Vec<Decl>) -> (r: Result<GenType, Error>)
    ensures
        match r {
            Ok(t) => sp_compile_param(p.deep_view(), depth) matches Ok(q) && t.deep_view() == q.0
                && final(sink).deep_view() == old(sink).deep_view() + q.1,
            Err(e) => sp_compile_param(p.deep_view(), depth) == Err::<(GenTypeV, Seq<DeclV>), _>(
                e.deep_view(),
            ),
        },
{
    if p.schema.len() == 0 {
        Err(Error::nowhere(ErrorKind::Schema, "Query parameter does not have a schema in OpenAPI spec"))
    } else {
        match compile_node(&p.schema[0], None, depth, sink) {
            Ok(ty) => {
                if p.required {
                    Ok(ty)
                } else {
                    Ok(GenType::Optional(Box::new(ty)))
                }
            },
            Err(e) => Err(e),
        }
    }
}

} // verus!
