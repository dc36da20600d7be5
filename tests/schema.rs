use oof::document::{DocObj, Node};
use oof::error::{InstructionProblem, SchemaParsingError};
use oof::model::{Executable, FsckOrder, OofFileLicense, OofFileSchema, Using};
use oof::schema::{
    classify_license, classify_lowered_license, from_over_obj, parse_extends, parse_oof_meta,
    parse_oof_meta_maintainer, parse_oof_schema_type, parse_using,
};
use oof::table::UsingMap;
use oof::text::decimal_string;

fn obj(pairs: Vec<(&str, Node)>) -> DocObj {
    DocObj {
        pairs: pairs.into_iter().map(|(k, v)| (k.to_string(), v)).collect(),
        parent: None,
    }
}

fn o(pairs: Vec<(&str, Node)>) -> Node {
    Node::Obj(obj(pairs))
}

fn s(text: &str) -> Node {
    Node::Str(text.to_string())
}

fn strs(items: &[&str]) -> Node {
    Node::Arr(items.iter().map(|t| s(t)).collect())
}

fn malformed(field: &str, problem: InstructionProblem) -> SchemaParsingError {
    SchemaParsingError::MalformedOofInstruction { field_name: field.to_string(), problem }
}

fn header(schema_type: &str, version: &str) -> Node {
    o(vec![
        ("schema", o(vec![("type", s(schema_type)), ("version", s(version))])),
        (
            "meta",
            o(vec![
                ("maintainer", o(vec![("name", s("Jane")), ("contact", s("jane@example.org"))])),
                ("license", s("MIT")),
            ]),
        ),
    ])
}

fn origin_using() -> Node {
    o(vec![("origin", o(vec![("git", s("https://example/repo"))]))])
}

fn full_document(extends: Node) -> DocObj {
    obj(vec![
        ("oof", header("system", "2021.08.01")),
        ("using", origin_using()),
        ("extends", extends),
    ])
}

#[test]
fn missing_header_is_reported() {
    let doc = obj(vec![("using", origin_using())]);
    assert_eq!(from_over_obj(&doc).unwrap_err(), SchemaParsingError::MissingOofInstruction);
}

#[test]
fn header_that_is_not_an_object_is_missing() {
    let doc = obj(vec![("oof", s("system"))]);
    assert_eq!(from_over_obj(&doc).unwrap_err(), SchemaParsingError::MissingOofInstruction);
}

#[test]
fn unsupported_schema_type_keeps_the_string() {
    let doc = obj(vec![("oof", header("desktop", "2021.08.01"))]);
    assert_eq!(
        from_over_obj(&doc).unwrap_err(),
        SchemaParsingError::UnsupportedSchemaType("desktop".to_string())
    );
}

#[test]
fn schema_type_is_case_sensitive() {
    let doc = obj(vec![("oof", header("System", "2021.08.01"))]);
    assert_eq!(
        from_over_obj(&doc).unwrap_err(),
        SchemaParsingError::UnsupportedSchemaType("System".to_string())
    );
}

#[test]
fn unsupported_schema_version_names_both() {
    let doc = obj(vec![("oof", header("system", "2020.01.01"))]);
    assert_eq!(
        from_over_obj(&doc).unwrap_err(),
        SchemaParsingError::UnsupportedSchemaVersion {
            schema_type: "system".to_string(),
            requested_version: "2020.01.01".to_string(),
        }
    );
}

#[test]
fn supported_schema_is_recognised() {
    let oof = obj(vec![("schema", o(vec![("type", s("system")), ("version", s("2021.08.01"))]))]);
    assert_eq!(parse_oof_schema_type(&oof), Ok(OofFileSchema::System20210801));
}

#[test]
fn schema_block_must_be_an_object() {
    let oof = obj(vec![("schema", s("system"))]);
    assert_eq!(parse_oof_schema_type(&oof), Err(malformed("schema", InstructionProblem::NotAnObject)));
    let empty = obj(vec![]);
    assert_eq!(parse_oof_schema_type(&empty), Err(malformed("schema", InstructionProblem::NotAnObject)));
}

#[test]
fn schema_type_must_be_a_string() {
    let oof = obj(vec![("schema", o(vec![("type", Node::Bool(true))]))]);
    assert_eq!(parse_oof_schema_type(&oof), Err(malformed("schema.type", InstructionProblem::NotAString)));
}

#[test]
fn schema_version_must_be_a_string() {
    let oof = obj(vec![("schema", o(vec![("type", s("system"))]))]);
    assert_eq!(
        parse_oof_schema_type(&oof),
        Err(malformed("schema.version", InstructionProblem::NotAString))
    );
}

#[test]
fn meta_block_must_be_an_object() {
    let oof = obj(vec![("meta", Node::Null)]);
    assert_eq!(parse_oof_meta(&oof).unwrap_err(), malformed("meta", InstructionProblem::NotAnObject));
}

#[test]
fn maintainer_or_homepage_is_required_even_with_a_license() {
    let oof = obj(vec![("meta", o(vec![("license", s("MIT"))]))]);
    assert_eq!(
        parse_oof_meta(&oof).unwrap_err(),
        malformed("meta.maintainer", InstructionProblem::MaintainerOrHomepageRequired)
    );
}

#[test]
fn maintainer_or_homepage_is_checked_before_the_license() {
    let oof = obj(vec![("meta", o(vec![("maintainer", o(vec![("contact", s("x"))]))]))]);
    assert_eq!(
        parse_oof_meta(&oof).unwrap_err(),
        malformed("meta.maintainer", InstructionProblem::MaintainerOrHomepageRequired)
    );
}

#[test]
fn license_is_required() {
    let oof = obj(vec![("meta", o(vec![("homepage", s("https://example.org"))]))]);
    assert_eq!(
        parse_oof_meta(&oof).unwrap_err(),
        malformed("meta.license", InstructionProblem::NotAString)
    );
}

#[test]
fn meta_with_homepage_only_compiles() {
    let oof = obj(vec![(
        "meta",
        o(vec![("homepage", s("https://example.org")), ("license", s("Apache-2.0"))]),
    )]);
    let meta = parse_oof_meta(&oof).unwrap();
    assert!(meta.maintainer.is_none());
    assert_eq!(meta.homepage, Some("https://example.org".to_string()));
    assert!(matches!(meta.license, OofFileLicense::SPDXIdentifier(ref l) if l == "Apache-2.0"));
}

#[test]
fn meta_with_maintainer_keeps_its_fields() {
    let oof = obj(vec![(
        "meta",
        o(vec![("maintainer", o(vec![("name", s("Jane"))])), ("license", s("restricted"))]),
    )]);
    let meta = parse_oof_meta(&oof).unwrap();
    let maintainer = meta.maintainer.unwrap();
    assert_eq!(maintainer.name, "Jane");
    assert_eq!(maintainer.contact, None);
    assert_eq!(meta.homepage, None);
    assert!(matches!(meta.license, OofFileLicense::Restricted));
}

#[test]
fn license_reserved_words_ignore_case() {
    for l in ["restricted", "Restricted", "RESTRICTED", "proprietary", "PROPRIETARY", "ProPrietary"] {
        assert!(matches!(classify_license(l.to_string()), OofFileLicense::Restricted), "{}", l);
    }
}

#[test]
fn license_identifiers_keep_their_case() {
    for l in ["MIT", "GPL-3.0-or-later", "CC0-1.0", "restricted-ish", ""] {
        match classify_license(l.to_string()) {
            OofFileLicense::SPDXIdentifier(id) => assert_eq!(id, l),
            OofFileLicense::Restricted => panic!("{} classified as restricted", l),
        }
    }
}

#[test]
fn classify_from_lowered_form() {
    let r = classify_lowered_license("Proprietary".to_string(), &"proprietary".to_string());
    assert!(matches!(r, OofFileLicense::Restricted));
    let r = classify_lowered_license("Proprietary".to_string(), &"Proprietary".to_string());
    assert!(matches!(r, OofFileLicense::SPDXIdentifier(ref l) if l == "Proprietary"));
}

#[test]
fn using_entry_defaults() {
    let doc = obj(vec![("using", origin_using())]);
    let table = parse_using(&doc).unwrap();
    assert_eq!(table.len(), 1);
    match table.get("origin").unwrap() {
        Using::Git { upstream, rev, shallow, bin } => {
            assert_eq!(upstream, "https://example/repo");
            assert_eq!(*rev, None);
            assert!(!*shallow);
            assert!(matches!(bin, Executable::Discoverable("git")));
        }
    }
}

#[test]
fn using_entry_with_all_fields() {
    let doc = obj(vec![(
        "using",
        o(vec![(
            "tools",
            o(vec![
                ("git", s("https://example/tools")),
                ("rev", s("v1.2")),
                ("shallow", Node::Bool(true)),
                ("bin", s("/usr/local/bin/git")),
            ]),
        )]),
    )]);
    let table = parse_using(&doc).unwrap();
    match table.get("tools").unwrap() {
        Using::Git { upstream, rev, shallow, bin } => {
            assert_eq!(upstream, "https://example/tools");
            assert_eq!(rev.as_deref(), Some("v1.2"));
            assert!(*shallow);
            assert!(matches!(bin, Executable::UserProvided(ref b) if b == "/usr/local/bin/git"));
        }
    }
}

#[test]
fn using_shallow_of_wrong_type_defaults_to_false() {
    let doc = obj(vec![(
        "using",
        o(vec![("a", o(vec![("git", s("g")), ("shallow", s("yes"))]))]),
    )]);
    match parse_using(&doc).unwrap().get("a").unwrap() {
        Using::Git { shallow, .. } => assert!(!*shallow),
    }
}

#[test]
fn using_must_be_an_object() {
    let doc = obj(vec![("using", strs(&["a"]))]);
    assert_eq!(parse_using(&doc).unwrap_err(), malformed("using", InstructionProblem::NotAnObject));
    let doc = obj(vec![]);
    assert_eq!(parse_using(&doc).unwrap_err(), malformed("using", InstructionProblem::NotAnObject));
}

#[test]
fn using_entry_without_git_fails() {
    let doc = obj(vec![(
        "using",
        o(vec![("good", o(vec![("git", s("g"))])), ("bad", o(vec![("rev", s("r"))]))]),
    )]);
    assert_eq!(
        parse_using(&doc).unwrap_err(),
        malformed("using.bad", InstructionProblem::CouldNotDetermineRepoType)
    );
}

#[test]
fn using_entry_that_is_not_an_object_fails() {
    let doc = obj(vec![("using", o(vec![("plain", s("https://example/repo"))]))]);
    assert_eq!(
        parse_using(&doc).unwrap_err(),
        malformed("using.plain", InstructionProblem::CouldNotDetermineRepoType)
    );
}

#[test]
fn using_reports_the_first_bad_entry() {
    let doc = obj(vec![("using", o(vec![("first", Node::Null), ("second", Node::Other)]))]);
    assert_eq!(
        parse_using(&doc).unwrap_err(),
        malformed("using.first", InstructionProblem::CouldNotDetermineRepoType)
    );
}

#[test]
fn using_duplicate_names_last_wins() {
    let doc = obj(vec![(
        "using",
        o(vec![
            ("a", o(vec![("git", s("one"))])),
            ("b", o(vec![("git", s("two"))])),
            ("a", o(vec![("git", s("three"))])),
        ]),
    )]);
    let table = parse_using(&doc).unwrap();
    assert_eq!(table.len(), 2);
    match table.get("a").unwrap() {
        Using::Git { upstream, .. } => assert_eq!(upstream, "three"),
    }
}

#[test]
fn empty_using_gives_empty_table() {
    let doc = obj(vec![("using", o(vec![]))]);
    assert_eq!(parse_using(&doc).unwrap().len(), 0);
}

#[test]
fn lookup_falls_back_to_the_parent() {
    let parent = obj(vec![("git", s("inherited"))]);
    let mut child = obj(vec![("rev", s("r1"))]);
    child.parent = Some(Box::new(parent));
    let doc = obj(vec![("using", o(vec![("x", Node::Obj(child))]))]);
    match parse_using(&doc).unwrap().get("x").unwrap() {
        Using::Git { upstream, rev, .. } => {
            assert_eq!(upstream, "inherited");
            assert_eq!(rev.as_deref(), Some("r1"));
        }
    }
}

fn origin_table() -> UsingMap {
    parse_using(&obj(vec![("using", origin_using())])).unwrap()
}

#[test]
fn extends_binds_to_the_source() {
    let doc = obj(vec![(
        "extends",
        Node::Arr(vec![o(vec![("repo", s("origin")), ("path", s("base.oof")), ("pick", strs(&["users"]))])]),
    )]);
    let table = origin_table();
    let ext = parse_extends(&doc, &table).unwrap();
    assert_eq!(ext.len(), 1);
    assert_eq!(ext[0].repo, "origin");
    assert!(table.get(&ext[0].repo).is_some());
    assert_eq!(ext[0].path, "base.oof");
    assert_eq!(ext[0].pick, Some(vec!["users".to_string()]));
    assert_eq!(ext[0].omit, None);
}

#[test]
fn extends_unknown_repo_fails() {
    let doc = obj(vec![(
        "extends",
        Node::Arr(vec![o(vec![("repo", s("upstream")), ("path", s("base.oof")), ("pick", strs(&["users"]))])]),
    )]);
    assert_eq!(
        parse_extends(&doc, &origin_table()).unwrap_err(),
        SchemaParsingError::ExtendingNonExistantRepo("upstream".to_string())
    );
}

#[test]
fn extends_unknown_repo_is_checked_before_path() {
    let doc = obj(vec![("extends", Node::Arr(vec![o(vec![("repo", s("nowhere"))])]))]);
    assert_eq!(
        parse_extends(&doc, &origin_table()).unwrap_err(),
        SchemaParsingError::ExtendingNonExistantRepo("nowhere".to_string())
    );
}

#[test]
fn extends_must_be_an_array() {
    let doc = obj(vec![("extends", o(vec![]))]);
    assert_eq!(
        parse_extends(&doc, &origin_table()).unwrap_err(),
        malformed("extends", InstructionProblem::NotAHomogeneousArray)
    );
}

#[test]
fn extends_entries_must_be_objects() {
    let good = o(vec![("repo", s("origin")), ("path", s("a"))]);
    let doc = obj(vec![("extends", Node::Arr(vec![good, s("origin")]))]);
    assert_eq!(
        parse_extends(&doc, &origin_table()).unwrap_err(),
        malformed("extends[1]", InstructionProblem::NotAnObject)
    );
}

#[test]
fn extends_repo_must_be_a_string() {
    let doc = obj(vec![("extends", Node::Arr(vec![o(vec![("path", s("a"))])]))]);
    assert_eq!(
        parse_extends(&doc, &origin_table()).unwrap_err(),
        malformed("extends[0].repo", InstructionProblem::NotAString)
    );
}

#[test]
fn extends_path_must_be_a_string_with_index() {
    let mut items = Vec::new();
    for _ in 0..12 {
        items.push(o(vec![("repo", s("origin")), ("path", s("p"))]));
    }
    items.push(o(vec![("repo", s("origin")), ("path", Node::Bool(false))]));
    let doc = obj(vec![("extends", Node::Arr(items))]);
    assert_eq!(
        parse_extends(&doc, &origin_table()).unwrap_err(),
        malformed("extends[12].path", InstructionProblem::NotAString)
    );
}

#[test]
fn extends_malformed_selections_become_absent() {
    let doc = obj(vec![(
        "extends",
        Node::Arr(vec![o(vec![
            ("repo", s("origin")),
            ("path", s("p")),
            ("pick", Node::Arr(vec![s("users"), Node::Bool(true)])),
            ("omit", s("groups")),
        ])]),
    )]);
    let ext = parse_extends(&doc, &origin_table()).unwrap();
    assert_eq!(ext[0].pick, None);
    assert_eq!(ext[0].omit, None);
}

#[test]
fn extends_keeps_order_and_duplicates() {
    let doc = obj(vec![(
        "extends",
        Node::Arr(vec![
            o(vec![("repo", s("origin")), ("path", s("b")), ("omit", strs(&["x", "y"]))]),
            o(vec![("repo", s("origin")), ("path", s("a"))]),
            o(vec![("repo", s("origin")), ("path", s("b")), ("omit", strs(&["x", "y"]))]),
        ]),
    )]);
    let ext = parse_extends(&doc, &origin_table()).unwrap();
    let paths: Vec<&str> = ext.iter().map(|e| e.path.as_str()).collect();
    assert_eq!(paths, vec!["b", "a", "b"]);
    assert_eq!(ext[0].omit, Some(vec!["x".to_string(), "y".to_string()]));
    assert_eq!(ext[2].omit, Some(vec!["x".to_string(), "y".to_string()]));
}

#[test]
fn empty_extends_gives_no_declarations() {
    let doc = obj(vec![("extends", Node::Arr(vec![]))]);
    assert!(parse_extends(&doc, &origin_table()).unwrap().is_empty());
}

#[test]
fn full_document_reaches_the_unimplemented_sections() {
    let doc = full_document(Node::Arr(vec![o(vec![("repo", s("origin")), ("path", s("base.oof"))])]));
    assert_eq!(
        from_over_obj(&doc).unwrap_err(),
        SchemaParsingError::Generic("rest not implemented")
    );
}

#[test]
fn compile_reports_dangling_repo() {
    let doc = full_document(Node::Arr(vec![o(vec![("repo", s("elsewhere")), ("path", s("base.oof"))])]));
    assert_eq!(
        from_over_obj(&doc).unwrap_err(),
        SchemaParsingError::ExtendingNonExistantRepo("elsewhere".to_string())
    );
}

#[test]
fn compile_reports_missing_using() {
    let doc = obj(vec![("oof", header("system", "2021.08.01"))]);
    assert_eq!(from_over_obj(&doc).unwrap_err(), malformed("using", InstructionProblem::NotAnObject));
}

#[test]
fn compiling_twice_gives_equal_results() {
    let docs = vec![
        full_document(Node::Arr(vec![])),
        full_document(Node::Null),
        obj(vec![("oof", header("system", "1.0"))]),
        obj(vec![]),
    ];
    for doc in &docs {
        assert_eq!(from_over_obj(doc).unwrap_err(), from_over_obj(doc).unwrap_err());
    }
    let a = parse_using(&docs[0]).unwrap();
    let b = parse_using(&docs[0]).unwrap();
    assert_eq!(format!("{:?}", a), format!("{:?}", b));
}

#[test]
fn decimal_rendering() {
    assert_eq!(decimal_string(0), "0");
    assert_eq!(decimal_string(7), "7");
    assert_eq!(decimal_string(10), "10");
    assert_eq!(decimal_string(1203), "1203");
    assert_eq!(decimal_string(usize::MAX), usize::MAX.to_string());
}

#[test]
fn problem_messages() {
    assert_eq!(InstructionProblem::NotAString.message(), "could not be parsed as a String");
    assert_eq!(
        InstructionProblem::MaintainerOrHomepageRequired.message(),
        "meta.maintainer and/or meta.homepage is required"
    );
}

#[test]
fn fsck_pass_numbers() {
    assert_eq!(FsckOrder::Disabled.pass_number(), 0);
    assert_eq!(FsckOrder::First.pass_number(), 1);
    assert_eq!(FsckOrder::Next.pass_number(), 2);
}

#[test]
fn table_insert_and_lookup() {
    let mut t = UsingMap::new();
    assert_eq!(t.len(), 0);
    assert!(!t.contains_key("a"));
    t.insert(
        "a".to_string(),
        Using::Git { upstream: "u".to_string(), rev: None, shallow: false, bin: Executable::Discoverable("git") },
    );
    assert!(t.contains_key("a"));
    assert!(!t.contains_key("b"));
    assert!(t.get("b").is_none());
}

#[test]
fn extends_repo_missing_from_using_names_it() {
    let doc = obj(vec![(
        "extends",
        Node::Arr(vec![o(vec![("repo", s("origin")), ("path", s("base.oof")), ("pick", strs(&["users"]))])]),
    )]);
    let empty = parse_using(&obj(vec![("using", o(vec![]))])).unwrap();
    assert_eq!(
        parse_extends(&doc, &empty).unwrap_err(),
        SchemaParsingError::ExtendingNonExistantRepo("origin".to_string())
    );
}

#[test]
fn documents_built_twice_compile_alike() {
    let build = || {
        full_document(Node::Arr(vec![o(vec![
            ("repo", s("origin")),
            ("path", s("base.oof")),
            ("pick", strs(&["users", "groups"])),
        ])]))
    };
    let (first, second) = (build(), build());
    assert_eq!(from_over_obj(&first).unwrap_err(), from_over_obj(&second).unwrap_err());
    let (t1, t2) = (parse_using(&first).unwrap(), parse_using(&second).unwrap());
    assert_eq!(format!("{:?}", t1), format!("{:?}", t2));
    let e1 = parse_extends(&first, &t1).unwrap();
    let e2 = parse_extends(&second, &t2).unwrap();
    assert_eq!(format!("{:?}", e1), format!("{:?}", e2));
}

#[test]
fn maintainer_must_be_an_object() {
    let meta = obj(vec![("maintainer", s("Jane"))]);
    assert_eq!(
        parse_oof_meta_maintainer(&meta).unwrap_err(),
        malformed("meta.maintainer", InstructionProblem::NotAnObject)
    );
    let empty = obj(vec![]);
    assert_eq!(
        parse_oof_meta_maintainer(&empty).unwrap_err(),
        malformed("meta.maintainer", InstructionProblem::NotAnObject)
    );
}

#[test]
fn maintainer_needs_a_name() {
    let meta = obj(vec![("maintainer", o(vec![("contact", s("ops@example.org"))]))]);
    assert_eq!(
        parse_oof_meta_maintainer(&meta).unwrap_err(),
        malformed("meta.maintainer.name", InstructionProblem::NotAString)
    );
    let meta = obj(vec![("maintainer", o(vec![("name", Node::Bool(true))]))]);
    assert_eq!(
        parse_oof_meta_maintainer(&meta).unwrap_err(),
        malformed("meta.maintainer.name", InstructionProblem::NotAString)
    );
}

#[test]
fn maintainer_with_name_and_contact() {
    let meta = obj(vec![(
        "maintainer",
        o(vec![("name", s("Jane")), ("contact", s("jane@example.org"))]),
    )]);
    let m = parse_oof_meta_maintainer(&meta).unwrap();
    assert_eq!(m.name, "Jane");
    assert_eq!(m.contact.as_deref(), Some("jane@example.org"));
}

#[test]
fn malformed_maintainer_with_homepage_is_dropped() {
    let oof = obj(vec![(
        "meta",
        o(vec![
            ("maintainer", o(vec![("contact", s("x"))])),
            ("homepage", s("https://example.org")),
            ("license", s("MIT")),
        ]),
    )]);
    let meta = parse_oof_meta(&oof).unwrap();
    assert!(meta.maintainer.is_none());
    assert_eq!(meta.homepage.as_deref(), Some("https://example.org"));
}
