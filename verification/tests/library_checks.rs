use rust_tools::slicer::{slice_source, OutputFormat, SliceError, SliceRequest};
use rust_tools::store::{
    create_item_statement, delete_reply, get_item_statement, lookup_reply, row_reply, schema_begin,
    schema_statements, schema_step, update_link_statement, CreateItem, DbFailure, Entity, SchemaAction,
    SqlValue, UpdateLink, CREATE_METAS_SQL,
    INSERT_ITEM_SQL, SELECT_ITEM_SQL, UPDATE_LINK_SQL,
};
use rust_tools::text::{decimal_chars, first_line_chars, signed_decimal_chars, trim_chars, trim_end_char_chars};

const SAMPLE: &str = r#"// A sample file for testing the code slicer.

struct MyStruct {
    field1: i32,
    field2: String,
}

fn my_function() {
    println!("This is a function.");
}

enum MyEnum {
    Variant1,
    Variant2(String),
}

// Let's extract this function
fn function_to_extract() {
    let s = MyStruct {
        field1: 10,
        field2: "hello".to_string(),
    };
    println!("Extract me!");
}
"#;

fn req(item: Option<&str>, format: OutputFormat) -> SliceRequest {
    SliceRequest { input: None, output: None, item_name: item.map(|s| s.to_string()), format }
}

fn chars(s: &str) -> Vec<char> {
    s.chars().collect()
}

#[test]
fn extracts_function_from_plain_sample() {
    let r = slice_source(SAMPLE, &req(Some("function_to_extract"), OutputFormat::Code)).ok().unwrap();
    assert_eq!(
        r.text,
        "fn function_to_extract() {\n    let s = MyStruct {\n        field1: 10,\n        field2: \"hello\".to_string(),\n    };\n    println!(\"Extract me!\");\n}\n"
    );
}

#[test]
fn csv_summary_exact_text_with_quoting() {
    let src = "use a::b;\n#[inline]\nfn f() {}\nconst C: u8 = 1;\n#[derive(A, B)]\n#[doc = \"q\"]\nstruct S;\nimpl T for S {}\n";
    let report = slice_source(src, &req(None, OutputFormat::Csv)).ok().unwrap();
    assert_eq!(
        report.text,
        "item_name,item_type,start_line,end_line,attributes\n\
         use a::b,Use,1,1,\n\
         f,Function,2,3,# [inline]\n\
         C,Const,4,4,\n\
         S,Struct,5,7,\"# [derive (A , B)] # [doc = \"\"q\"\"]\"\n\
         impl T for S {},Impl,8,8,\n"
    );
}

#[test]
fn csv_of_empty_file_is_header_only() {
    let report = slice_source("", &req(Some("x"), OutputFormat::Csv)).ok().unwrap();
    assert_eq!(report.text, "item_name,item_type,start_line,end_line,attributes\n");
}

#[test]
fn csv_ignores_item_name() {
    let with_name = slice_source(SAMPLE, &req(Some("nothing_here"), OutputFormat::Csv)).ok().unwrap();
    let without = slice_source(SAMPLE, &req(None, OutputFormat::Csv)).ok().unwrap();
    assert_eq!(with_name.text, without.text);
    assert_eq!(with_name.notice, None);
}

#[test]
fn lookup_takes_first_of_same_name() {
    let src = "fn a() {}\nstruct a;\nconst b: u8 = 0;\nstatic c: u8 = 0;\nmod c {}\n";
    assert_eq!(slice_source(src, &req(Some("a"), OutputFormat::Code)).ok().unwrap().text, "fn a() {}\n");
    assert!(matches!(slice_source(src, &req(Some("b"), OutputFormat::Code)), Err(SliceError::ItemNotFound(_))));
    assert_eq!(slice_source(src, &req(Some("c"), OutputFormat::Code)).ok().unwrap().text, "mod c {}\n");
}

#[test]
fn parse_error_is_reported() {
    match slice_source("fn (", &req(None, OutputFormat::Code)) {
        Err(SliceError::Parse(m)) => assert!(m.starts_with("Error parsing source file: ")),
        _ => panic!("expected a parse error"),
    }
}

#[test]
fn not_found_names_stdin() {
    match slice_source(SAMPLE, &req(Some("missing"), OutputFormat::Code)) {
        Err(SliceError::ItemNotFound(m)) => assert_eq!(m, "Item 'missing' not found in 'stdin'"),
        _ => panic!("expected a missing item"),
    }
}

#[test]
fn no_notice_without_output_file_or_for_ast() {
    let mut r = req(Some("my_function"), OutputFormat::Ast);
    r.output = Some("out.txt".to_string());
    let report = slice_source(SAMPLE, &r).ok().unwrap();
    assert_eq!(report.notice, None);
}

#[test]
fn text_helpers() {
    assert_eq!(trim_chars(&chars(" \t\u{3000}ab c\n ")), chars("ab c"));
    assert_eq!(trim_end_char_chars(&chars("x {{"), '{'), chars("x "));
    assert_eq!(first_line_chars(&chars("impl A {\r\n    x\n")), chars("impl A {"));
    assert_eq!(first_line_chars(&chars("a\rb")), chars("a\rb"));
    assert_eq!(first_line_chars(&chars("\nb")), chars(""));
    assert_eq!(first_line_chars(&chars("")), chars(""));
    assert_eq!(decimal_chars(0), chars("0"));
    assert_eq!(decimal_chars(907), chars("907"));
    assert_eq!(signed_decimal_chars(-45), chars("-45"));
    assert_eq!(signed_decimal_chars(i64::MIN), chars("-9223372036854775808"));
}

#[test]
fn item_statements_bind_in_order() {
    let p = CreateItem { meta_id: 7, item_seq: 1, item_sq2: 2, item_name: "n".to_string(), item_desc: None };
    let s = create_item_statement(&p, "2024-01-01T00:00:00+00:00");
    assert_eq!(s.sql, INSERT_ITEM_SQL);
    assert!(matches!(s.params[0], SqlValue::Int64(7)));
    assert!(matches!(s.params[2], SqlValue::Int32(2)));
    assert!(matches!(&s.params[3], SqlValue::Text(t) if t == "n"));
    assert!(matches!(s.params[4], SqlValue::Null));
    assert!(matches!(&s.params[5], SqlValue::Text(t) if t == "2024-01-01T00:00:00+00:00"));
    let g = get_item_statement(3);
    assert_eq!(g.sql, SELECT_ITEM_SQL);
    assert_eq!(g.params.len(), 1);
    let u = update_link_statement(
        9,
        &UpdateLink { link_l_id: 1, link_r_id: 2, link_seq: 3, link_sq2: 4, link_desc: Some("d".to_string()) },
        "t",
    );
    assert_eq!(u.sql, UPDATE_LINK_SQL);
    assert!(matches!(&u.params[4], SqlValue::Text(t) if t == "d"));
    assert!(matches!(u.params[6], SqlValue::Int64(9)));
    let schema = schema_statements();
    assert_eq!(schema.len(), 3);
    assert_eq!(schema[0].sql, CREATE_METAS_SQL);
}

#[test]
fn schema_runs_in_order_and_stops_at_a_failure() {
    assert_eq!(schema_begin(), SchemaAction::Execute(0));
    assert_eq!(schema_step(0, true), SchemaAction::Execute(1));
    assert_eq!(schema_step(1, true), SchemaAction::Execute(2));
    assert_eq!(schema_step(2, true), SchemaAction::Finished);
    assert_eq!(schema_step(1, false), SchemaAction::Abort);
    assert_eq!(schema_step(2, false), SchemaAction::Abort);
}

#[test]
fn replies_follow_the_failure() {
    let missing = lookup_reply::<u8>(Entity::Item, 42, Err(DbFailure::RowNotFound("no rows".to_string())));
    let e = missing.err().unwrap();
    assert_eq!(e.status, 404);
    assert_eq!(e.message, "Item with id 42 not found");
    let meta = lookup_reply::<u8>(Entity::Meta, -1, Err(DbFailure::RowNotFound("x".to_string()))).err().unwrap();
    assert_eq!(meta.message, "Meta with id -1 not found");
    let other = lookup_reply::<u8>(Entity::Link, 1, Err(DbFailure::Other("disk I/O error".to_string()))).err().unwrap();
    assert_eq!(other.status, 500);
    assert_eq!(other.message, "disk I/O error");
    let write = row_reply::<u8>(Err(DbFailure::RowNotFound("no rows returned".to_string()))).err().unwrap();
    assert_eq!(write.status, 500);
    assert_eq!(write.message, "no rows returned");
    assert_eq!(row_reply::<u8>(Ok(5)).ok(), Some(5));
    assert_eq!(delete_reply(Ok(())).ok(), Some(204));
    assert_eq!(delete_reply(Err(DbFailure::Other("boom".to_string()))).err().unwrap().status, 500);
}

fn csv_names(src: &str) -> Vec<(String, String)> {
    let text = slice_source(src, &req(None, OutputFormat::Csv)).ok().unwrap().text;
    let mut rdr = csv::Reader::from_reader(text.as_bytes());
    rdr.records().map(|r| r.unwrap()).map(|r| (r[0].to_string(), r[1].to_string())).collect()
}

#[test]
fn csv_has_a_record_for_every_item() {
    let src = "const A: u8 = 1;\nstatic B: u8 = 2;\ntype C = u8;\nunion D { x: u8 }\nextern crate e;\nextern \"C\" { fn g(); }\ntrait F = Clone;\n";
    let names = csv_names(src);
    let expected: Vec<(String, String)> = vec![
        ("A", "Const"),
        ("B", "Static"),
        ("C", "Type"),
        ("D", "Union"),
        ("e", "ExternCrate"),
        ("", "ForeignMod"),
        ("F", "TraitAlias"),
    ]
    .into_iter()
    .map(|(a, b)| (a.to_string(), b.to_string()))
    .collect();
    assert_eq!(names, expected);
}

#[test]
fn impl_names_are_first_printed_lines() {
    let src = "impl<T> A for B<T> where T: C {\n    fn f(&self) {}\n}\n#[allow(dead_code)]\nimpl D for E {\n    fn g() {}\n}\nunsafe impl Send for G {}\n";
    let names = csv_names(src);
    assert_eq!(names[0], ("impl<T> A for B<T>".to_string(), "Impl".to_string()));
    assert_eq!(names[1].0, "#[allow(dead_code)]");
    assert_eq!(names[2].0, "unsafe impl Send for G {}");
}

#[test]
fn raw_syntax_is_refused_only_where_it_is_printed() {
    let impl_src = "impl A for B { fn f(); }\n";
    assert!(matches!(slice_source(impl_src, &req(None, OutputFormat::Csv)), Err(SliceError::Unprintable(_))));
    assert!(slice_source(impl_src, &req(None, OutputFormat::Ast)).is_ok());

    let top_src = "fn f();\nfn g() {}\n";
    let names = csv_names(top_src);
    assert_eq!(names[0], (String::new(), "Verbatim".to_string()));
    assert_eq!(names[1], ("g".to_string(), "Function".to_string()));
    assert!(matches!(slice_source(top_src, &req(None, OutputFormat::Code)), Err(SliceError::Unprintable(_))));
    assert_eq!(slice_source(top_src, &req(Some("g"), OutputFormat::Code)).ok().unwrap().text, "fn g() {}\n");

    let mod_src = "mod m { fn f(); }\n";
    assert!(matches!(slice_source(mod_src, &req(Some("m"), OutputFormat::Code)), Err(SliceError::Unprintable(_))));

    let extern_src = "unsafe extern \"C\" {\n    safe fn f();\n}\n";
    assert_eq!(csv_names(extern_src), vec![(String::new(), "ForeignMod".to_string())]);
}

#[test]
fn text_that_looks_raw_is_printed() {
    let src = "fn f() {\n    let s = \"::Verbatim(\";\n}\n";
    assert_eq!(slice_source(src, &req(Some("f"), OutputFormat::Code)).ok().unwrap().text, src);
    assert_eq!(slice_source(src, &req(None, OutputFormat::Code)).ok().unwrap().text, src);
}

#[test]
fn macro_rules_bodies_must_be_rules_to_be_printed() {
    let bad = "macro_rules! m { foo }\n";
    assert!(matches!(slice_source(bad, &req(Some("m"), OutputFormat::Code)), Err(SliceError::Unprintable(_))));
    assert!(matches!(slice_source(bad, &req(None, OutputFormat::Code)), Err(SliceError::Unprintable(_))));
    assert!(slice_source(bad, &req(Some("m"), OutputFormat::Ast)).is_ok());
    assert_eq!(csv_names(bad), vec![("m".to_string(), "Macro".to_string())]);

    let nested = "fn f() {\n    macro_rules! m { = > }\n}\n";
    assert!(matches!(slice_source(nested, &req(Some("f"), OutputFormat::Code)), Err(SliceError::Unprintable(_))));

    let good = "macro_rules! m {\n    () => {};\n    ($x:expr) => {\n        $x\n    };\n}\n";
    assert_eq!(slice_source(good, &req(Some("m"), OutputFormat::Code)).ok().unwrap().text, good);
    let other = "foo! { bar }\n";
    assert!(slice_source(other, &req(None, OutputFormat::Code)).is_ok());
}

#[test]
fn ast_of_item_is_that_items_tree() {
    let report = slice_source(SAMPLE, &req(Some("MyEnum"), OutputFormat::Ast)).ok().unwrap();
    assert!(report.text.starts_with("Item::Enum"));
    assert!(report.text.contains("MyEnum"));
    assert!(!report.text.contains("MyStruct"));
}
