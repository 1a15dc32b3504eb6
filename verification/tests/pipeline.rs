use axum_open_api_codegen::err::ErrorKind;
use axum_open_api_codegen::model::{
    Document, MediaEntry, Operation, Param, ParamLoc, PathEntry, PathItem, Property, RequestBody,
    SchemaKind, SchemaNode, SchemaOrRef,
};
use axum_open_api_codegen::parsing::{MethodPath, Root};
use axum_open_api_codegen::schema::{compile_schema, strategy_of, Decl, GenType, Strategy};
use axum_open_api_codegen::util::chars_of;
use axum_open_api_codegen::validate_routes;

fn node() -> SchemaNode {
    SchemaNode {
        title: None,
        kind: None,
        one_of: vec![],
        has_all_of: false,
        has_any_of: false,
        properties: vec![],
        required: vec![],
        items: vec![],
    }
}

fn prim(kind: SchemaKind) -> SchemaNode {
    SchemaNode {
        kind: Some(kind),
        ..node()
    }
}

fn titled_prim(title: &str, kind: SchemaKind) -> SchemaNode {
    SchemaNode {
        title: Some(title.to_string()),
        kind: Some(kind),
        ..node()
    }
}

fn component(name: &str, schema: SchemaNode) -> (String, SchemaOrRef) {
    (name.to_string(), SchemaOrRef::Inline(schema))
}

fn doc_with_components(components: Vec<(String, SchemaOrRef)>) -> Document {
    Document {
        paths: vec![],
        components: components
            .into_iter()
            .map(|(name, schema)| axum_open_api_codegen::model::ComponentEntry { name, schema })
            .collect(),
    }
}

fn path_item() -> PathItem {
    PathItem {
        get: None,
        post: None,
        put: None,
        delete: None,
        patch: None,
        head: None,
        options: None,
        trace: None,
    }
}

fn empty_op() -> Operation {
    Operation {
        parameters: vec![],
        request_body: None,
    }
}

#[test]
fn type_alias_schemas() {
    let doc = doc_with_components(vec![
        component("StringAlias", prim(SchemaKind::Text)),
        component("IntegerAlias", prim(SchemaKind::Integer)),
        component("BooleanAlias", prim(SchemaKind::Boolean)),
        component("NumberAlias", prim(SchemaKind::Number)),
        component(
            "StringVectorAlias",
            SchemaNode {
                kind: Some(SchemaKind::Array),
                items: vec![SchemaOrRef::Inline(prim(SchemaKind::Text))],
                ..node()
            },
        ),
    ]);
    let out = validate_routes("path = \"spec.yaml\";", doc).unwrap();
    assert!(out.contains("pub type StringAlias = String;\n"));
    assert!(out.contains("pub type IntegerAlias = i64;\n"));
    assert!(out.contains("pub type BooleanAlias = bool;\n"));
    assert!(out.contains("pub type NumberAlias = f64;\n"));
    assert!(out.contains("pub type StringVectorAlias = Vec<String>;\n"));
    assert!(out.starts_with("pub mod schemas {\n"));
}

#[test]
fn object_schema() {
    let obj = SchemaNode {
        title: None,
        kind: Some(SchemaKind::Object),
        properties: vec![
            Property {
                name: "id".to_string(),
                schema: SchemaOrRef::Inline(prim(SchemaKind::Integer)),
            },
            Property {
                name: "req_id".to_string(),
                schema: SchemaOrRef::Inline(prim(SchemaKind::Integer)),
            },
            Property {
                name: "name_ref".to_string(),
                schema: SchemaOrRef::Reference {
                    ref_path: "#/components/schemas/StringAlias".to_string(),
                },
            },
            Property {
                name: "inline_object".to_string(),
                schema: SchemaOrRef::Inline(SchemaNode {
                    title: Some("NestedInlineObject".to_string()),
                    kind: Some(SchemaKind::Object),
                    properties: vec![Property {
                        name: "id".to_string(),
                        schema: SchemaOrRef::Inline(prim(SchemaKind::Integer)),
                    }],
                    ..node()
                }),
            },
        ],
        required: vec!["req_id".to_string()],
        ..node()
    };
    let doc = doc_with_components(vec![
        component("StringAlias", prim(SchemaKind::Text)),
        component("ObjectSchema", obj),
    ]);
    let out = validate_routes("path = \"spec.yaml\";", doc).unwrap();
    assert!(out.contains(
        "pub struct ObjectSchema {\npub id: Option<i64>,\npub req_id: i64,\npub name_ref: Option<super::schemas::StringAlias>,\npub inline_object: Option<NestedInlineObject>,\n}\n"
    ));
    assert!(out.contains("pub struct NestedInlineObject {\npub id: Option<i64>,\n}\n"));
}

#[test]
fn one_of_schema() {
    let one_of = SchemaNode {
        title: Some("OneOfSchema".to_string()),
        one_of: vec![
            SchemaOrRef::Inline(titled_prim("NumberTitle", SchemaKind::Number)),
            SchemaOrRef::Inline(prim(SchemaKind::Text)),
            SchemaOrRef::Reference {
                ref_path: "#/components/schemas/BooleanAlias".to_string(),
            },
        ],
        ..node()
    };
    let doc = doc_with_components(vec![
        component("BooleanAlias", prim(SchemaKind::Boolean)),
        component("OneOfSchema", one_of),
    ]);
    let out = validate_routes("path = \"spec.yaml\";", doc).unwrap();
    assert!(out.contains(
        "pub enum OneOfSchema {\nNumberTitle(NumberTitle),\nString(String),\nBooleanAlias(super::schemas::BooleanAlias),\n}\n"
    ));
    assert!(out.contains("pub type NumberTitle = f64;\n"));
}

#[test]
fn path_encoding_round_trip() {
    let chars = chars_of("/api/{id}/posts");
    let (path, _) = MethodPath::parse(&chars, 0).unwrap();
    assert_eq!(path.to_axum_path(), "/api/:id/posts");
    assert_eq!(path.to_oapi_path(), "/api/{id}/posts");
    let rechars = chars_of(&path.to_oapi_path());
    let (path2, _) = MethodPath::parse(&rechars, 0).unwrap();
    assert_eq!(path.segments.len(), path2.segments.len());
    for (a, b) in path.segments.iter().zip(path2.segments.iter()) {
        assert_eq!(a.name, b.name);
        assert_eq!(a.is_param, b.is_param);
    }
}

#[test]
fn field_order_and_required_mapping() {
    let obj = SchemaNode {
        title: Some("Record".to_string()),
        kind: Some(SchemaKind::Object),
        properties: vec![
            Property {
                name: "a".to_string(),
                schema: SchemaOrRef::Inline(prim(SchemaKind::Text)),
            },
            Property {
                name: "b".to_string(),
                schema: SchemaOrRef::Inline(prim(SchemaKind::Integer)),
            },
            Property {
                name: "c".to_string(),
                schema: SchemaOrRef::Inline(prim(SchemaKind::Boolean)),
            },
        ],
        required: vec!["b".to_string()],
        ..node()
    };
    let mut sink = Vec::new();
    let ty = compile_schema(&SchemaOrRef::Inline(obj), None, 0, &mut sink).unwrap();
    assert!(matches!(ty, GenType::Named(ref n) if n == "Record"));
    let last = sink.last().unwrap();
    match last {
        Decl::Record { name, fields } => {
            assert_eq!(name, "Record");
            let names: Vec<&str> = fields.iter().map(|f| f.name.as_str()).collect();
            assert_eq!(names, vec!["a", "b", "c"]);
            assert!(fields[0].optional);
            assert!(!fields[1].optional);
            assert!(fields[2].optional);
        }
        _ => panic!("expected a record declaration"),
    }
}

#[test]
fn reference_depth_two_hops() {
    let mut sink = Vec::new();
    let ty = compile_schema(
        &SchemaOrRef::Reference {
            ref_path: "#/components/schemas/Thing".to_string(),
        },
        None,
        2,
        &mut sink,
    )
    .unwrap();
    match &ty {
        GenType::Component { hops, name } => {
            assert_eq!(*hops, 2);
            assert_eq!(name, "Thing");
        }
        _ => panic!("expected a component reference"),
    }
    assert_eq!(ty.render(), "super::super::schemas::Thing");
    assert!(sink.is_empty());
}

#[test]
fn mime_strategy_dispatch() {
    assert_eq!(strategy_of(&"application/json".to_string()), Strategy::Json);
    assert_eq!(
        strategy_of(&"application/x-www-form-urlencoded".to_string()),
        Strategy::Form
    );
    assert_eq!(
        strategy_of(&"multipart/form-data".to_string()),
        Strategy::Multipart
    );
    assert_eq!(strategy_of(&"text/plain".to_string()), Strategy::Text);
    assert_eq!(strategy_of(&"text/html".to_string()), Strategy::Text);
    assert_eq!(strategy_of(&"image/png".to_string()), Strategy::Bytes);
}

fn doc_with_post_body(content: Vec<MediaEntry>) -> Document {
    Document {
        paths: vec![PathEntry {
            template: "/upload".to_string(),
            item: PathItem {
                post: Some(Operation {
                    parameters: vec![],
                    request_body: Some(RequestBody { content }),
                }),
                ..path_item()
            },
        }],
        components: vec![],
    }
}

#[test]
fn json_body_binds_json_strategy() {
    let doc = doc_with_post_body(vec![MediaEntry {
        name: "application/json".to_string(),
        schema: vec![SchemaOrRef::Inline(titled_prim("Payload", SchemaKind::Text))],
    }]);
    let out = validate_routes("path = \"s\"; POST /upload as pub Upload;", doc).unwrap();
    assert!(out.contains("pub body: Payload,\n"));
    assert!(out.contains("let ::axum::extract::Json(body)"));
    assert!(out.contains("Rejection::Json(e)"));
}

#[test]
fn multipart_body_binds_builtin_strategy() {
    let doc = doc_with_post_body(vec![MediaEntry {
        name: "multipart/form-data".to_string(),
        schema: vec![],
    }]);
    let out = validate_routes("path = \"s\"; POST /upload as pub Upload;", doc).unwrap();
    assert!(out.contains("pub body: ::axum::extract::Multipart,\n"));
    assert!(out.contains("Rejection::Multipart(e)"));
}

#[test]
fn unknown_media_type_falls_back_to_bytes() {
    let doc = doc_with_post_body(vec![MediaEntry {
        name: "image/png".to_string(),
        schema: vec![],
    }]);
    let out = validate_routes("path = \"s\"; POST /upload as pub Upload;", doc).unwrap();
    assert!(out.contains("pub body: ::axum::extract::Bytes,\n"));
    assert!(out.contains("Rejection::Bytes(e)"));
}

#[test]
fn two_media_types_fail_compilation() {
    let doc = doc_with_post_body(vec![
        MediaEntry {
            name: "application/json".to_string(),
            schema: vec![SchemaOrRef::Inline(titled_prim("Payload", SchemaKind::Text))],
        },
        MediaEntry {
            name: "text/plain".to_string(),
            schema: vec![],
        },
    ]);
    let err = validate_routes("path = \"s\"; POST /upload as pub Upload;", doc).unwrap_err();
    assert_eq!(err.kind, ErrorKind::Schema);
    assert_eq!(err.msg, "Exactly one media type is supported");
}

#[test]
fn compilation_is_deterministic() {
    let source = "path = \"s\"; pub mod api { GET /api/items/{id} as pub GetItem; }";
    let make_doc = || Document {
        paths: vec![PathEntry {
            template: "/api/items/{id}".to_string(),
            item: PathItem {
                get: Some(Operation {
                    parameters: vec![
                        Param {
                            name: "id".to_string(),
                            loc: ParamLoc::InPath,
                            required: true,
                            schema: vec![prim(SchemaKind::Integer)],
                        },
                        Param {
                            name: "page".to_string(),
                            loc: ParamLoc::InQuery,
                            required: false,
                            schema: vec![prim(SchemaKind::Integer)],
                        },
                    ],
                    request_body: None,
                }),
                ..path_item()
            },
        }],
        components: vec![component("StringAlias", prim(SchemaKind::Text))]
            .into_iter()
            .map(|(name, schema)| axum_open_api_codegen::model::ComponentEntry { name, schema })
            .collect(),
    };
    let out1 = validate_routes(source, make_doc()).unwrap();
    let out2 = validate_routes(source, make_doc()).unwrap();
    assert_eq!(out1, out2);
    assert!(out1.contains("pub id: i64,\n"));
    assert!(out1.contains("pub page: Option<i64>,\n"));
    assert!(out1.contains("\"/api/items/:id\""));
}

#[test]
fn unknown_route_fails_with_resolution_error() {
    let doc = Document {
        paths: vec![],
        components: vec![],
    };
    let err = validate_routes("path = \"s\"; GET /missing as pub Missing;", doc).unwrap_err();
    assert_eq!(err.kind, ErrorKind::Resolution);
    assert_eq!(err.msg, "Path not found in OpenAPI spec: /missing");
    assert!(err.pos.is_some());
}

#[test]
fn unknown_verb_on_known_path_fails() {
    let doc = Document {
        paths: vec![PathEntry {
            template: "/thing".to_string(),
            item: PathItem {
                get: Some(empty_op()),
                ..path_item()
            },
        }],
        components: vec![],
    };
    let err = validate_routes("path = \"s\"; POST /thing as pub MakeThing;", doc).unwrap_err();
    assert_eq!(err.kind, ErrorKind::Resolution);
    assert_eq!(err.msg, "Method not found in OpenAPI spec: /thing");
}

#[test]
fn missing_path_parameter_fails() {
    let doc = Document {
        paths: vec![PathEntry {
            template: "/items/{id}".to_string(),
            item: PathItem {
                get: Some(empty_op()),
                ..path_item()
            },
        }],
        components: vec![],
    };
    let err = validate_routes("path = \"s\"; GET /items/{id} as pub GetItem;", doc).unwrap_err();
    assert_eq!(err.kind, ErrorKind::Resolution);
    assert_eq!(err.msg, "Path parameter not found in OpenAPI spec: id");
}

#[test]
fn misplaced_path_parameter_fails() {
    let doc = Document {
        paths: vec![PathEntry {
            template: "/items/{id}".to_string(),
            item: PathItem {
                get: Some(Operation {
                    parameters: vec![Param {
                        name: "id".to_string(),
                        loc: ParamLoc::InQuery,
                        required: true,
                        schema: vec![prim(SchemaKind::Integer)],
                    }],
                    request_body: None,
                }),
                ..path_item()
            },
        }],
        components: vec![],
    };
    let err = validate_routes("path = \"s\"; GET /items/{id} as pub GetItem;", doc).unwrap_err();
    assert_eq!(err.kind, ErrorKind::Resolution);
    assert_eq!(err.msg, "Path parameter is not in `path` in OpenAPI spec: id");
}

#[test]
fn anonymous_object_fails() {
    let doc = doc_with_components(vec![(
        "X".to_string(),
        SchemaOrRef::Inline(SchemaNode {
            title: None,
            kind: Some(SchemaKind::Object),
            properties: vec![Property {
                name: "inner".to_string(),
                schema: SchemaOrRef::Inline(SchemaNode {
                    kind: Some(SchemaKind::Object),
                    ..node()
                }),
            }],
            ..node()
        }),
    )]);
    let err = validate_routes("path = \"s\";", doc).unwrap_err();
    assert_eq!(err.kind, ErrorKind::Schema);
    assert!(err.msg.starts_with("Anonymous schemas are not supported"));
}

#[test]
fn unsupported_combinators_fail() {
    let doc = doc_with_components(vec![(
        "X".to_string(),
        SchemaOrRef::Inline(SchemaNode {
            has_all_of: true,
            ..node()
        }),
    )]);
    let err = validate_routes("path = \"s\";", doc).unwrap_err();
    assert_eq!(err.kind, ErrorKind::Schema);
    assert_eq!(err.msg, "allOf and anyOf are not (yet) supported");
}

#[test]
fn missing_kind_fails() {
    let doc = doc_with_components(vec![("X".to_string(), SchemaOrRef::Inline(node()))]);
    let err = validate_routes("path = \"s\";", doc).unwrap_err();
    assert_eq!(err.kind, ErrorKind::Schema);
    assert_eq!(err.msg, "schema is missing `schema_type` and `one_of`");
}

#[test]
fn syntax_error_carries_position() {
    let doc = Document {
        paths: vec![],
        components: vec![],
    };
    let err = validate_routes("path = \"s\"; FETCH /x as pub X;", doc).unwrap_err();
    assert_eq!(err.kind, ErrorKind::Syntax);
    assert_eq!(err.msg, "Invalid method");
    assert_eq!(err.pos, Some(12));
}

#[test]
fn variant_tag_is_recast_to_upper_camel() {
    let one_of = SchemaNode {
        title: Some("Choice".to_string()),
        one_of: vec![SchemaOrRef::Reference {
            ref_path: "#/components/schemas/snake_cased".to_string(),
        }],
        ..node()
    };
    let doc = doc_with_components(vec![
        component("snake_cased", prim(SchemaKind::Text)),
        component("Choice", one_of),
    ]);
    let out = validate_routes("path = \"s\";", doc).unwrap();
    assert!(out.contains("pub enum Choice {\nSnakeCased(super::schemas::snake_cased),\n}\n"));
}

#[test]
fn empty_document_emits_empty_schemas_module() {
    let doc = Document {
        paths: vec![],
        components: vec![],
    };
    let out = validate_routes("path = \"s\";", doc).unwrap();
    assert_eq!(out, "pub mod schemas {\n}\n");
}

#[test]
fn parses_spec_path_from_source() {
    let root = Root::parse("path = \"api/openapi.yaml\";").unwrap();
    assert_eq!(root.spec_path, "api/openapi.yaml");
    assert!(root.items.is_empty());
}
