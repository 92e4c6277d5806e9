use rust_tools::slicer::{slice_source, OutputFormat, SliceError, SliceReport, SliceRequest};

const COMPLEX_SAMPLE: &str = r#"// This is a complex sample file for testing the rust_code_slicer tool.
use std::collections::HashMap;

/// A doc comment for a struct.
#[derive(Debug, Clone)]
pub struct ComplexStruct {
    pub name: String,
    pub value: i64,
}

/// A doc comment for a trait.
pub trait DoSomething {
    fn do_it(&self) -> String;
}

// Implementation of the trait for our struct.
impl DoSomething for ComplexStruct {
    fn do_it(&self) -> String {
        format!("{} has value {}", self.name, self.value)
    }
}

// A standalone function with attributes and comments.
#[allow(unused_variables)]
pub fn standalone_function(arg1: &str) {
    // A comment inside the function.
    let x = 10;
    println!("Hello, {}!", arg1);
}

// A macro definition.
#[macro_export]
macro_rules! my_macro {
    () => {
        println!("This is a macro!");
    };
}

// A module containing other items.
pub mod inner_module {
    // A function inside a module.
    pub fn inner_function() {
        println!("I am inside a module.");
    }

    // A nested struct.
    pub struct NestedStruct {
        pub data: Vec<u8>,
    }
}

// An enum with different kinds of variants.
pub enum Message {
    Quit,
    Move { x: i32, y: i32 },
    Write(String),
    ChangeColor(i32, i32, i32),
}
"#;

fn request(input: Option<&str>, output: Option<&str>, item_name: Option<&str>, format: OutputFormat) -> SliceRequest {
    SliceRequest {
        input: input.map(|s| s.to_string()),
        output: output.map(|s| s.to_string()),
        item_name: item_name.map(|s| s.to_string()),
        format,
    }
}

fn run_ok(source: &str, req: &SliceRequest) -> SliceReport {
    match slice_source(source, req) {
        Ok(report) => report,
        Err(SliceError::Parse(m)) | Err(SliceError::ItemNotFound(m)) | Err(SliceError::Unprintable(m)) => {
            panic!("unexpected failure: {}", m)
        }
    }
}

// Extracts an item as code to an output file, as the command line does with
// --input, --output, --item-name and --format=code.
fn run_slicer_to_file(item_name: &str) -> String {
    let req = request(Some("tests/complex_sample.rs"), Some("output.rs"), Some(item_name), OutputFormat::Code);
    let report = run_ok(COMPLEX_SAMPLE, &req);
    assert_eq!(
        report.notice,
        Some(format!("Successfully extracted item '{}' to 'output.rs'", item_name))
    );
    report.text
}

#[test]
fn test_extract_function() {
    let output_contents = run_slicer_to_file("standalone_function");
    let expected = r#"
#[allow(unused_variables)]
pub fn standalone_function(arg1: &str) {
    let x = 10;
    println!("Hello, {}!", arg1);
}
"#;
    assert_eq!(output_contents.trim(), expected.trim());
}

#[test]
fn test_extract_struct() {
    let output_contents = run_slicer_to_file("ComplexStruct");
    let expected = r#"
/// A doc comment for a struct.
#[derive(Debug, Clone)]
pub struct ComplexStruct {
    pub name: String,
    pub value: i64,
}
"#;
    assert_eq!(output_contents.trim(), expected.trim());
}

#[test]
fn test_extract_module() {
    let output_contents = run_slicer_to_file("inner_module");
    let expected = r#"
pub mod inner_module {
    pub fn inner_function() {
        println!("I am inside a module.");
    }
    pub struct NestedStruct {
        pub data: Vec<u8>,
    }
}
"#;
    assert_eq!(output_contents.trim(), expected.trim());
}

#[test]
fn test_extract_macro() {
    let output_contents = run_slicer_to_file("my_macro");
    let expected = r#"
#[macro_export]
macro_rules! my_macro {
    () => {
        println!("This is a macro!");
    };
}
"#;
    assert_eq!(output_contents.trim(), expected.trim());
}

#[test]
fn test_item_not_found() {
    let req = request(Some("tests/complex_sample.rs"), Some("output.rs"), Some("non_existent_item"), OutputFormat::Ast);
    match slice_source(COMPLEX_SAMPLE, &req) {
        Err(SliceError::ItemNotFound(message)) => {
            assert!(message.contains("Item 'non_existent_item' not found"));
            assert_eq!(message, "Item 'non_existent_item' not found in 'tests/complex_sample.rs'");
        }
        _ => panic!("the lookup should fail"),
    }
}

#[test]
fn test_extract_to_stdout() {
    let req = request(Some("tests/complex_sample.rs"), None, Some("Message"), OutputFormat::Code);
    let report = run_ok(COMPLEX_SAMPLE, &req);

    let expected = r#"
pub enum Message {
    Quit,
    Move { x: i32, y: i32 },
    Write(String),
    ChangeColor(i32, i32, i32),
}
"#;

    let mut expected_with_newline = expected.trim().to_string();
    expected_with_newline.push('\n');

    assert_eq!(report.text, expected_with_newline);
    assert_eq!(report.notice, None);
}

#[test]
fn test_extract_ast_default_format() {
    let req = request(Some("tests/complex_sample.rs"), None, Some("ComplexStruct"), OutputFormat::Ast);
    let report = run_ok(COMPLEX_SAMPLE, &req);
    assert!(report.text.contains("Item::Struct"));
    assert!(report.text.contains("ident: Ident"));
    assert!(report.text.contains("struct_token: Struct"));
}

#[test]
fn test_whole_file_as_code() {
    let req = request(Some("tests/complex_sample.rs"), None, None, OutputFormat::Code);
    let report = run_ok(COMPLEX_SAMPLE, &req);
    let expected_output = prettyplease::unparse(&syn::parse_file(COMPLEX_SAMPLE).unwrap());
    assert_eq!(report.text, expected_output);
}

#[test]
fn test_whole_file_as_ast_default() {
    let req = request(Some("tests/complex_sample.rs"), None, None, OutputFormat::Ast);
    let report = run_ok(COMPLEX_SAMPLE, &req);
    assert!(report.text.contains("File {"));
    assert!(report.text.contains("shebang: None"));
    assert!(report.text.contains("items: ["));
}

#[test]
fn test_read_from_stdin() {
    let input_code = "fn my_stdin_func() {}";
    let req = request(None, None, None, OutputFormat::Ast);
    let report = run_ok(input_code, &req);
    assert!(report.text.contains("Item::Fn"));
}

#[test]
fn test_format_csv() {
    let req = request(Some("tests/complex_sample.rs"), None, None, OutputFormat::Csv);
    let report = run_ok(COMPLEX_SAMPLE, &req);
    let csv_output = report.text.as_str();

    let mut rdr = csv::Reader::from_reader(csv_output.as_bytes());
    let records: Vec<_> = rdr.records().map(|r| r.unwrap()).collect();

    // Check header
    assert_eq!(rdr.headers().unwrap(), &["item_name", "item_type", "start_line", "end_line", "attributes"][..]);

    // Check number of records
    assert_eq!(records.len(), 8);

    // Spot check the 'use' record
    let use_record = &records[0];
    assert_eq!(&use_record[0], "use std::collections::HashMap");
    assert_eq!(&use_record[1], "Use");

    // Spot check the 'struct' record
    let struct_record = &records[1];
    assert_eq!(&struct_record[0], "ComplexStruct");
    assert_eq!(&struct_record[1], "Struct");
    assert!(&struct_record[4].contains("doc ="));
    assert!(&struct_record[4].contains("derive (Debug , Clone)"));

    // Spot check the 'impl' record
    let impl_record = &records[3];
    assert_eq!(&impl_record[0], "impl DoSomething for ComplexStruct");
    assert_eq!(&impl_record[1], "Impl");
    assert_eq!(&impl_record[4], ""); // No attributes on the impl block itself
}
