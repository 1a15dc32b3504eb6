//! The general guarantees of the compiler, stated and proved over the same
//! models its contracts use.
use vstd::prelude::*;

verus! {

use crate::codegen;
use crate::compilation::{
    sp_compile_body, sp_compile_method, sp_lookup_path, sp_method_pos, sp_oapi_path,
};
use crate::err::{err_at, err_nowhere, ErrorKind, ErrorV};
use crate::model::{DocumentV, RequestBodyV, SchemaNodeV, SchemaOrRefV};
use crate::parsing;
use crate::schema::{
    ref_final_name, render_type, sp_compile_object, sp_compile_props, sp_compile_schema,
    strategy_for, supers, DeclV, FieldV, GenTypeV, Strategy,
};
use crate::util::seq_has_name;

/// The fields an object schema's properties compile to keep the properties'
/// order and names, and a field is optional exactly when its property is
/// absent from the required-name set.
proof fn lemma_props_shape(
    props: Seq<crate::model::PropertyV>,
    k: int,
    required: Seq<Seq<char>>,
    depth: usize,
    fields: Seq<FieldV>,
    ds: Seq<DeclV>,
)
    requires
        0 <= k <= props.len(),
        sp_compile_props(props, k, required, depth) == Ok::<_, ErrorV>((fields, ds)),
    ensures
        fields.len() == props.len() - k,
        forall|j: int|
            0 <= j < fields.len() ==> #[trigger] fields[j].name == props[k + j].name,
        forall|j: int|
            0 <= j < fields.len() ==> #[trigger] fields[j].optional == !seq_has_name(
                required,
                props[k + j].name,
            ),
    decreases props.len() - k,
{
    if k < props.len() {
        match sp_compile_schema(props[k].schema, None, depth) {
            Ok((ty, ds1)) => {
                match sp_compile_props(props, k + 1, required, depth) {
                    Ok((fields2, ds2)) => {
                        lemma_props_shape(props, k + 1, required, depth, fields2, ds2);
                    },
                    Err(_) => {},
                }
            },
            Err(_) => {},
        }
    }
}

/// Field-order fidelity: an object schema with properties declared in some
/// order compiles to a record whose fields carry exactly those names in
/// exactly that order, regardless of which properties are required. The
/// record is the last declaration the compilation emits.
pub proof fn lemma_object_field_order(
    n: SchemaNodeV,
    title: Option<Seq<char>>,
    depth: usize,
    ty: GenTypeV,
    ds: Seq<DeclV>,
)
    requires
        sp_compile_object(n, title, depth) == Ok::<_, ErrorV>((ty, ds)),
    ensures
        ds.len() > 0,
        ds.last() matches DeclV::Record { name, fields } && fields.len() == n.properties.len()
            && (forall|j: int|
            0 <= j < fields.len() ==> #[trigger] fields[j].name == n.properties[j].name),
{
    match crate::schema::sp_merge_titles(title, n.title) {
        Ok(name) => match sp_compile_props(n.properties, 0, n.required, depth) {
            Ok((fields, ds0)) => {
                lemma_props_shape(n.properties, 0, n.required, depth, fields, ds0);
                assert(ds == ds0 + seq![DeclV::Record { name, fields }]);
                assert(ds.last() == DeclV::Record { name, fields });
            },
            Err(_) => {},
        },
        Err(_) => {},
    }
}

/// Required/optional mapping: a property present in the schema's
/// required-name set always compiles to a non-optional field, and every
/// other declared property compiles to an optional field.
pub proof fn lemma_required_optional(
    n: SchemaNodeV,
    title: Option<Seq<char>>,
    depth: usize,
    ty: GenTypeV,
    ds: Seq<DeclV>,
)
    requires
        sp_compile_object(n, title, depth) == Ok::<_, ErrorV>((ty, ds)),
    ensures
        ds.len() > 0,
        ds.last() matches DeclV::Record { name, fields } && (forall|j: int|
            0 <= j < fields.len() ==> #[trigger] fields[j].optional == !seq_has_name(
                n.required,
                n.properties[j].name,
            )),
{
    match crate::schema::sp_merge_titles(title, n.title) {
        Ok(name) => match sp_compile_props(n.properties, 0, n.required, depth) {
            Ok((fields, ds0)) => {
                lemma_props_shape(n.properties, 0, n.required, depth, fields, ds0);
                assert(ds.last() == DeclV::Record { name, fields });
            },
            Err(_) => {},
        },
        Err(_) => {},
    }
}

/// Reference depth: a component reference compiled at nesting depth `d`
/// resolves to the final component of the reference path, qualified by
/// exactly `d` parent-scope hops back to the shared `schemas` module, and
/// emits no declaration.
pub proof fn lemma_reference_depth(ref_path: Seq<char>, title: Option<Seq<char>>, depth: usize)
    ensures
        sp_compile_schema(SchemaOrRefV::Reference { ref_path }, title, depth) == Ok::<_, ErrorV>(
            (
                GenTypeV::Component { hops: depth, name: ref_final_name(ref_path) },
                Seq::<DeclV>::empty(),
            ),
        ),
        render_type(GenTypeV::Component { hops: depth, name: ref_final_name(ref_path) }) == supers(
            depth as int,
        ) + "schemas::"@ + ref_final_name(ref_path),
{
}

/// MIME dispatch: with a single content entry, a JSON or form-urlencoded
/// body compiles its schema and binds the matching strategy and error
/// variant; a multipart body binds the built-in multipart extractor with no
/// schema compiled; an unrecognized media type falls back to the raw-bytes
/// extractor.
pub proof fn lemma_mime_dispatch(b: RequestBodyV, depth: usize)
    requires
        b.content.len() == 1,
    ensures
        ({
            let entry = b.content[0];
            &&& (strategy_for(entry.name) == Strategy::Json && entry.schema.len() > 0
                ==> sp_compile_body(Some(b), depth) == (match sp_compile_schema(
                entry.schema[0],
                None,
                depth,
            ) {
                Ok((ty, ds)) => Ok::<_, ErrorV>(
                    (
                        Some(codegen::ExtractorV { body_ty: ty, strategy: Strategy::Json }),
                        ds,
                    ),
                ),
                Err(e) => Err(e),
            }))
            &&& (strategy_for(entry.name) == Strategy::Multipart ==> sp_compile_body(
                Some(b),
                depth,
            ) == Ok::<_, ErrorV>(
                (
                    Some(
                        codegen::ExtractorV {
                            body_ty: GenTypeV::BuiltIn(Strategy::Multipart),
                            strategy: Strategy::Multipart,
                        },
                    ),
                    Seq::<DeclV>::empty(),
                ),
            ))
            &&& (strategy_for(entry.name) == Strategy::Bytes ==> sp_compile_body(Some(b), depth)
                == Ok::<_, ErrorV>(
                (
                    Some(
                        codegen::ExtractorV {
                            body_ty: GenTypeV::BuiltIn(Strategy::Bytes),
                            strategy: Strategy::Bytes,
                        },
                    ),
                    Seq::<DeclV>::empty(),
                ),
            ))
        }),
{
}

/// Exactly-one-media-type rule: a request body whose content mapping holds
/// any number of entries other than one fails compilation with a schema
/// error, regardless of which entries they are.
pub proof fn lemma_single_media_type(b: RequestBodyV, depth: usize)
    requires
        b.content.len() != 1,
    ensures
        sp_compile_body(Some(b), depth) == Err::<(Option<codegen::ExtractorV>, Seq<DeclV>), _>(
            err_nowhere(ErrorKind::Schema, "Exactly one media type is supported"@),
        ),
{
}

/// Determinism and idempotence: compiling the same declaration source
/// against the same document twice yields the same outcome — byte-identical
/// emitted text, or the identical error. Every run of the pipeline returns
/// exactly what `sp_validate_routes` denotes, so any two runs agree.
pub proof fn lemma_deterministic(
    source: Seq<char>,
    doc: DocumentV,
    r1: Result<Seq<char>, ErrorV>,
    r2: Result<Seq<char>, ErrorV>,
)
    requires
        r1 == crate::sp_validate_routes(source, doc),
        r2 == crate::sp_validate_routes(source, doc),
    ensures
        r1 == r2,
{
}

/// No path entry at or after `k` matches `tmpl`, so the lookup runs off the
/// end.
proof fn lemma_lookup_none(paths: Seq<crate::model::PathEntryV>, tmpl: Seq<char>, k: int)
    requires
        0 <= k <= paths.len(),
        forall|i: int| k <= i < paths.len() ==> #[trigger] paths[i].template != tmpl,
    ensures
        sp_lookup_path(paths, tmpl, k) == paths.len(),
    decreases paths.len() - k,
{
    if k < paths.len() {
        lemma_lookup_none(paths, tmpl, k + 1);
    }
}

/// Fail-fast on unknown route: a declared route whose document-style path
/// template matches no path of the document fails with a resolution error
/// naming that path, whatever its verb.
pub proof fn lemma_unknown_route(m: parsing::MethodItemV, doc: DocumentV, depth: usize)
    requires
        forall|i: int|
            0 <= i < doc.paths.len() ==> #[trigger] doc.paths[i].template != sp_oapi_path(
                m.path.segments,
            ),
    ensures
        sp_compile_method(m, doc, depth) == Err::<(codegen::MethodItemV, Seq<DeclV>), _>(
            err_at(
                ErrorKind::Resolution,
                sp_method_pos(m),
                "Path not found in OpenAPI spec: "@ + sp_oapi_path(m.path.segments),
            ),
        ),
{
    lemma_lookup_none(doc.paths, sp_oapi_path(m.path.segments), 0);
}

} // verus!

verus! {

use crate::compilation::{sp_axum_path, sp_axum_seg, sp_oapi_seg};
use crate::parsing::{bump, is_ident_char, remaining, PathSegV};
use crate::schema::sp_find_char;

/// A well-formed path segment name: nonempty, identifier characters only.
pub open spec fn wf_seg_name(name: Seq<char>) -> bool {
    name.len() > 0 && forall|k: int| 0 <= k < name.len() ==> is_ident_char(#[trigger] name[k])
}

/// Every segment of the path carries a well-formed name.
pub open spec fn wf_segs(segs: Seq<PathSegV>) -> bool {
    forall|i: int| 0 <= i < segs.len() ==> wf_seg_name(#[trigger] segs[i].name)
}

/// The observable content of a path: its segment names and parameter flags,
/// in order.
pub open spec fn seg_pairs(segs: Seq<PathSegV>) -> Seq<(Seq<char>, bool)> {
    Seq::new(segs.len(), |i: int| (segs[i].name, segs[i].is_param))
}

/// Read a framework-style path back into segment names and parameter flags.
pub open spec fn sp_parse_framework(s: Seq<char>, i: int) -> Option<Seq<(Seq<char>, bool)>>
    decreases remaining(s, i),
{
    if i >= s.len() {
        Some(Seq::empty())
    } else if 0 <= i && s[i] == '/' {
        let j = sp_find_char(s, i + 1, '/');
        let tok = s.subrange(i + 1, j);
        if tok.len() > 0 && tok[0] == ':' {
            let name = tok.subrange(1, tok.len() as int);
            if wf_seg_name(name) {
                match sp_parse_framework(s, bump(i, j)) {
                    Some(rest) => Some(seq![(name, true)] + rest),
                    None => None,
                }
            } else {
                None
            }
        } else if wf_seg_name(tok) {
            match sp_parse_framework(s, bump(i, j)) {
                Some(rest) => Some(seq![(tok, false)] + rest),
                None => None,
            }
        } else {
            None
        }
    } else {
        None
    }
}

/// Read a document-style path back into segment names and parameter flags.
pub open spec fn sp_parse_document(s: Seq<char>, i: int) -> Option<Seq<(Seq<char>, bool)>>
    decreases remaining(s, i),
{
    if i >= s.len() {
        Some(Seq::empty())
    } else if 0 <= i && s[i] == '/' {
        let j = sp_find_char(s, i + 1, '/');
        let tok = s.subrange(i + 1, j);
        if tok.len() > 0 && tok[0] == '{' {
            if tok.len() >= 2 && tok.last() == '}' {
                let name = tok.subrange(1, tok.len() - 1);
                if wf_seg_name(name) {
                    match sp_parse_document(s, bump(i, j)) {
                        Some(rest) => Some(seq![(name, true)] + rest),
                        None => None,
                    }
                } else {
                    None
                }
            } else {
                None
            }
        } else if wf_seg_name(tok) {
            match sp_parse_document(s, bump(i, j)) {
                Some(rest) => Some(seq![(tok, false)] + rest),
                None => None,
            }
        } else {
            None
        }
    } else {
        None
    }
}

/// A region without `c` followed by `c` or the end pins the scan down.
proof fn lemma_find_char_past(s: Seq<char>, a: int, b: int, c: char)
    requires
        0 <= a <= b <= s.len(),
        forall|k: int| a <= k < b ==> #[trigger] s[k] != c,
        b == s.len() || s[b] == c,
    ensures
        sp_find_char(s, a, c) == b,
    decreases b - a,
{
    if a < b {
        lemma_find_char_past(s, a + 1, b, c);
    }
}

/// A framework-style rendering starting at `i` reads back as the rendered
/// segments.
proof fn lemma_round_framework(segs: Seq<PathSegV>, s: Seq<char>, i: int)
    requires
        0 <= i <= s.len(),
        s.subrange(i, s.len() as int) == sp_axum_path(segs),
        wf_segs(segs),
    ensures
        sp_parse_framework(s, i) == Some(seg_pairs(segs)),
    decreases segs.len(),
{
    reveal_strlit("/:");
    reveal_strlit("/");
    let suffix = s.subrange(i, s.len() as int);
    assert(suffix.len() == s.len() - i);
    if segs.len() == 0 {
        assert(suffix.len() == 0);
        assert(i == s.len());
        assert(seg_pairs(segs) =~= Seq::<(Seq<char>, bool)>::empty());
    } else {
        let seg0 = segs[0];
        let rest = segs.drop_first();
        let n = seg0.name.len() as int;
        let pre: int = if seg0.is_param { 2 } else { 1 };
        let b = i + pre + n;
        let head = sp_axum_seg(seg0);
        assert(suffix == head + sp_axum_path(rest));
        assert(head.len() == pre + n);
        assert(b <= s.len());
        assert(wf_seg_name(seg0.name));
        // the head characters of the rendering
        assert(suffix[0] == head[0]);
        assert(head[0] == '/');
        assert(s[i] == suffix[0]);
        if seg0.is_param {
            assert(suffix[1] == head[1]);
            assert(head[1] == ':');
            assert(s[i + 1] == suffix[1]);
        }
        assert forall|q: int| 0 <= q < n implies s[i + pre + q] == seg0.name[q] by {
            assert(s[i + pre + q] == suffix[pre + q]);
            assert(suffix[pre + q] == head[pre + q]);
            assert(head[pre + q] == seg0.name[q]);
        }
        // the character at `b`, when any, is the next segment's slash
        if rest.len() > 0 {
            assert(sp_axum_path(rest) == sp_axum_seg(rest[0]) + sp_axum_path(rest.drop_first()));
            assert(sp_axum_seg(rest[0])[0] == '/');
            assert(s[b] == suffix[pre + n]);
            assert(suffix[pre + n] == sp_axum_path(rest)[0]);
            assert(s[b] == '/');
        } else {
            assert(sp_axum_path(rest).len() == 0);
            assert(b == s.len());
        }
        // identifier characters are never slashes
        assert forall|k: int| i + 1 <= k < b implies s[k] != '/' by {
            if k >= i + pre {
                assert(s[k] == seg0.name[k - i - pre]);
                assert(is_ident_char(seg0.name[k - i - pre]));
            } else {
                assert(seg0.is_param && k == i + 1);
                assert(s[k] == ':');
            }
        }
        lemma_find_char_past(s, i + 1, b, '/');
        let tok = s.subrange(i + 1, b);
        assert(tok.len() == pre + n - 1);
        if seg0.is_param {
            assert(tok[0] == s[i + 1]);
            assert(tok.len() > 0 && tok[0] == ':');
            assert(tok.subrange(1, tok.len() as int) =~= seg0.name) by {
                assert forall|q: int| 0 <= q < n implies tok.subrange(1, tok.len() as int)[q]
                    == seg0.name[q] by {
                    assert(tok.subrange(1, tok.len() as int)[q] == tok[q + 1]);
                    assert(tok[q + 1] == s[i + 2 + q]);
                    assert(s[i + pre + q] == seg0.name[q]);
                }
            }
        } else {
            assert(tok =~= seg0.name) by {
                assert forall|q: int| 0 <= q < n implies tok[q] == seg0.name[q] by {
                    assert(tok[q] == s[i + 1 + q]);
                    assert(s[i + pre + q] == seg0.name[q]);
                }
            }
            assert(is_ident_char(tok[0]));
            assert(tok[0] != ':');
            assert(tok[0] != '{');
        }
        // the tail renders the remaining segments
        assert(s.subrange(b, s.len() as int) =~= sp_axum_path(rest)) by {
            assert(s.subrange(b, s.len() as int).len() == sp_axum_path(rest).len());
            assert forall|q: int| 0 <= q < sp_axum_path(rest).len() implies s.subrange(
                b,
                s.len() as int,
            )[q] == sp_axum_path(rest)[q] by {
                assert(s.subrange(b, s.len() as int)[q] == s[b + q]);
                assert(s[b + q] == suffix[pre + n + q]);
                assert(suffix[pre + n + q] == sp_axum_path(rest)[q]);
            }
        }
        assert forall|q: int| 0 <= q < rest.len() implies wf_seg_name(#[trigger] rest[q].name) by {
            assert(rest[q] == segs[q + 1]);
        }
        lemma_round_framework(rest, s, b);
        assert(bump(i, b) == b);
        assert(seq![(seg0.name, seg0.is_param)] + seg_pairs(rest) =~= seg_pairs(segs)) by {
            assert forall|q: int| 0 <= q < segs.len() implies (seq![(seg0.name, seg0.is_param)]
                + seg_pairs(rest))[q] == seg_pairs(segs)[q] by {
                if q > 0 {
                    assert(rest[q - 1] == segs[q]);
                }
            }
        }
    }
}

} // verus!

verus! {

/// A document-style rendering starting at `i` reads back as the rendered
/// segments.
proof fn lemma_round_document(segs: Seq<PathSegV>, s: Seq<char>, i: int)
    requires
        0 <= i <= s.len(),
        s.subrange(i, s.len() as int) == sp_oapi_path(segs),
        wf_segs(segs),
    ensures
        sp_parse_document(s, i) == Some(seg_pairs(segs)),
    decreases segs.len(),
{
    reveal_strlit("/{");
    reveal_strlit("}");
    reveal_strlit("/");
    let suffix = s.subrange(i, s.len() as int);
    assert(suffix.len() == s.len() - i);
    if segs.len() == 0 {
        assert(suffix.len() == 0);
        assert(i == s.len());
        assert(seg_pairs(segs) =~= Seq::<(Seq<char>, bool)>::empty());
    } else {
        let seg0 = segs[0];
        let rest = segs.drop_first();
        let n = seg0.name.len() as int;
        let head = sp_oapi_seg(seg0);
        let hl: int = if seg0.is_param {
            n + 3
        } else {
            n + 1
        };
        let b = i + hl;
        assert(suffix == head + sp_oapi_path(rest));
        if seg0.is_param {
            let inner = "/{"@ + seg0.name;
            assert(head == inner + "}"@);
            assert(head.len() == hl);
            assert(head[0] == inner[0]);
            assert(head[1] == inner[1]);
            assert(head[0] == '/' && head[1] == '{');
            assert forall|q: int| 0 <= q < n implies head[2 + q] == seg0.name[q] by {
                assert(head[2 + q] == inner[2 + q]);
            }
            assert(head[2 + n] == "}"@[0]);
            assert(head[2 + n] == '}');
        } else {
            assert(head == "/"@ + seg0.name);
            assert(head.len() == hl);
            assert(head[0] == '/');
            assert forall|q: int| 0 <= q < n implies head[1 + q] == seg0.name[q] by {
            }
        }
        assert(b <= s.len());
        assert(wf_seg_name(seg0.name));
        assert forall|q: int| 0 <= q < hl implies s[i + q] == head[q] by {
            assert(s[i + q] == suffix[q]);
            assert(suffix[q] == head[q]);
        }
        assert(s[i] == '/');
        // the character at `b`, when any, is the next segment's slash
        if rest.len() > 0 {
            assert(sp_oapi_path(rest) == sp_oapi_seg(rest[0]) + sp_oapi_path(rest.drop_first()));
            if rest[0].is_param {
                assert(sp_oapi_seg(rest[0]) == ("/{"@ + rest[0].name) + "}"@);
                assert(sp_oapi_seg(rest[0])[0] == ("/{"@ + rest[0].name)[0]);
                assert(sp_oapi_seg(rest[0])[0] == '/');
            } else {
                assert(sp_oapi_seg(rest[0])[0] == '/');
            }
            assert(s[b] == suffix[hl]);
            assert(suffix[hl] == sp_oapi_path(rest)[0]);
            assert(s[b] == '/');
        } else {
            assert(sp_oapi_path(rest).len() == 0);
            assert(b == s.len());
        }
        // no character of the token region is a slash
        assert forall|k: int| i + 1 <= k < b implies s[k] != '/' by {
            assert(s[k] == head[k - i]);
            if seg0.is_param {
                if k == i + 1 {
                    assert(head[1] == '{');
                } else if k == i + 2 + n {
                    assert(head[2 + n] == '}');
                } else {
                    assert(head[k - i] == seg0.name[k - i - 2]);
                    assert(is_ident_char(seg0.name[k - i - 2]));
                }
            } else {
                assert(head[k - i] == seg0.name[k - i - 1]);
                assert(is_ident_char(seg0.name[k - i - 1]));
            }
        }
        lemma_find_char_past(s, i + 1, b, '/');
        let tok = s.subrange(i + 1, b);
        assert(tok.len() == hl - 1);
        if seg0.is_param {
            assert(tok[0] == s[i + 1]);
            assert(tok[0] == '{');
            assert(tok.last() == s[i + 2 + n]);
            assert(tok.last() == '}');
            assert(tok.subrange(1, tok.len() - 1) =~= seg0.name) by {
                assert forall|q: int| 0 <= q < n implies tok.subrange(1, tok.len() - 1)[q]
                    == seg0.name[q] by {
                    assert(tok.subrange(1, tok.len() - 1)[q] == tok[q + 1]);
                    assert(tok[q + 1] == s[i + 2 + q]);
                    assert(s[i + 2 + q] == head[2 + q]);
                }
            }
        } else {
            assert(tok =~= seg0.name) by {
                assert forall|q: int| 0 <= q < n implies tok[q] == seg0.name[q] by {
                    assert(tok[q] == s[i + 1 + q]);
                    assert(s[i + 1 + q] == head[1 + q]);
                }
            }
            assert(is_ident_char(tok[0]));
            assert(tok[0] != '{');
        }
        // the tail renders the remaining segments
        assert(s.subrange(b, s.len() as int) =~= sp_oapi_path(rest)) by {
            assert(s.subrange(b, s.len() as int).len() == sp_oapi_path(rest).len());
            assert forall|q: int| 0 <= q < sp_oapi_path(rest).len() implies s.subrange(
                b,
                s.len() as int,
            )[q] == sp_oapi_path(rest)[q] by {
                assert(s.subrange(b, s.len() as int)[q] == s[b + q]);
                assert(s[b + q] == suffix[hl + q]);
                assert(suffix[hl + q] == sp_oapi_path(rest)[q]);
            }
        }
        assert forall|q: int| 0 <= q < rest.len() implies wf_seg_name(#[trigger] rest[q].name) by {
            assert(rest[q] == segs[q + 1]);
        }
        lemma_round_document(rest, s, b);
        assert(bump(i, b) == b);
        assert(seq![(seg0.name, seg0.is_param)] + seg_pairs(rest) =~= seg_pairs(segs)) by {
            assert forall|q: int| 0 <= q < segs.len() implies (seq![(seg0.name, seg0.is_param)]
                + seg_pairs(rest))[q] == seg_pairs(segs)[q] by {
                if q > 0 {
                    assert(rest[q - 1] == segs[q]);
                }
            }
        }
    }
}

/// Path-encoding bijection: for any sequence of well-formed path segments,
/// the framework-style rendering reads back as exactly the original segment
/// names and parameter flags, and so does the document-style rendering.
/// The two encodings are therefore losslessly interconvertible: converting
/// a path to either style and back recovers the same segments, so a round
/// trip through the other style recovers them too.
pub proof fn lemma_path_encoding_bijection(segs: Seq<PathSegV>)
    requires
        wf_segs(segs),
    ensures
        sp_parse_framework(sp_axum_path(segs), 0) == Some(seg_pairs(segs)),
        sp_parse_document(sp_oapi_path(segs), 0) == Some(seg_pairs(segs)),
{
    let a = sp_axum_path(segs);
    assert(a.subrange(0, a.len() as int) =~= a);
    lemma_round_framework(segs, a, 0);
    let o = sp_oapi_path(segs);
    assert(o.subrange(0, o.len() as int) =~= o);
    lemma_round_document(segs, o, 0);
}

} // verus!
