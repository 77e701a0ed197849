use dharitri_sdk::meta::code_report::{
    check_compare_paths, check_convert_paths, create_report_format, is_path_ends_with,
    is_report_source_file, last_path_segment, sanitize_output_path_from_report,
};
use dharitri_sdk::meta::{CodeReportJson, EndpointTypeMetadata, ReportError, ReportFormat};

#[test]
fn a_path_ends_with_its_extension() {
    assert!(is_path_ends_with("report.md", ".md"));
    assert!(is_path_ends_with("a/b/report.json", ".json"));
    assert!(is_path_ends_with(".md", ".md"));
    assert!(is_path_ends_with("anything", ""));
    assert!(!is_path_ends_with("report.md", ".json"));
    assert!(!is_path_ends_with("md", ".md"));
    assert!(!is_path_ends_with("report.md.bak", ".md"));
    assert!(!is_path_ends_with("report.MD", ".md"));
    assert!(is_path_ends_with("r\u{e9}sum\u{e9}.md", ".md"));
}

#[test]
fn comparisons_go_to_markdown_from_json() {
    assert_eq!(check_compare_paths("out.md", "base.json", "new.json"), Ok(()));
    assert_eq!(check_compare_paths("out.md", "base.txt", "new.json"), Ok(()));
    assert_eq!(check_compare_paths("out.md", "base.json", "new.txt"), Ok(()));
    assert_eq!(
        check_compare_paths("out.md", "base.txt", "new.txt"),
        Err(ReportError::CompareInputNotJson)
    );
    assert_eq!(
        check_compare_paths("out.json", "base.json", "new.json"),
        Err(ReportError::CompareOutputNotMarkdown)
    );
    assert_eq!(
        check_compare_paths("out.txt", "base.txt", "new.txt"),
        Err(ReportError::CompareOutputNotMarkdown)
    );
}

#[test]
fn conversions_go_to_markdown_from_json() {
    assert_eq!(check_convert_paths("out.md", "in.json"), Ok(()));
    assert_eq!(check_convert_paths("out.md", "in.md"), Err(ReportError::ConvertInputNotJson));
    assert_eq!(
        check_convert_paths("out.json", "in.json"),
        Err(ReportError::ConvertOutputNotMarkdown)
    );
    assert_eq!(check_convert_paths("out", "in"), Err(ReportError::ConvertOutputNotMarkdown));
}

#[test]
fn new_reports_are_markdown_or_json() {
    assert_eq!(create_report_format("out.md"), Ok(ReportFormat::Markdown));
    assert_eq!(create_report_format("out.json"), Ok(ReportFormat::Json));
    assert_eq!(create_report_format("out.json.md"), Ok(ReportFormat::Markdown));
    assert_eq!(create_report_format("out.txt"), Err(ReportError::CreateOutputNotSupported));
    assert_eq!(create_report_format(""), Err(ReportError::CreateOutputNotSupported));
}

#[test]
fn report_errors_have_their_messages() {
    assert_eq!(
        ReportError::CompareOutputNotMarkdown.message(),
        "Compare output is only available for Markdown file extension."
    );
    assert_eq!(
        ReportError::CompareInputNotJson.message(),
        "Compare baseline and new are only available for JSON file extension."
    );
    assert_eq!(
        ReportError::ConvertOutputNotMarkdown.message(),
        "Conversion output is only available for Markdown file extension"
    );
    assert_eq!(
        ReportError::ConvertInputNotJson.message(),
        "Conversion only available from JSON file extension"
    );
    assert_eq!(
        ReportError::CreateOutputNotSupported.message(),
        "Create report is only available for Markdown or JSON output file."
    );
}

#[test]
fn debug_builds_stay_out_of_the_report() {
    assert!(is_report_source_file("output/adder.drtsc.json"));
    assert!(!is_report_source_file("output/adder-dbg.drtsc.json"));
    assert!(!is_report_source_file("output/adder.abi.json"));
    assert!(!is_report_source_file("output/adder.drtsc.json.bak"));
    assert!(is_report_source_file(".drtsc.json"));
}

#[test]
fn the_last_segment_follows_the_last_slash() {
    assert_eq!(last_path_segment("a/b/c.wasm"), "c.wasm");
    assert_eq!(last_path_segment("c.wasm"), "c.wasm");
    assert_eq!(last_path_segment("/c.wasm"), "c.wasm");
    assert_eq!(last_path_segment("a/b/"), "");
    assert_eq!(last_path_segment(""), "");
    assert_eq!(last_path_segment("/"), "");
    assert_eq!(last_path_segment("a//b"), "b");
    assert_eq!(last_path_segment("d\u{e9}p\u{f4}t/r\u{e9}sum\u{e9}.wasm"), "r\u{e9}sum\u{e9}.wasm");
}

#[test]
fn sanitizing_cuts_every_path_and_keeps_the_rest() {
    let mut reports = vec![
        CodeReportJson {
            path: "../contracts/adder/output/adder.wasm".to_string(),
            size: 700,
            has_allocator: false,
            has_panic: "none".to_string(),
        },
        CodeReportJson {
            path: "vault.wasm".to_string(),
            size: 9000,
            has_allocator: true,
            has_panic: "with message".to_string(),
        },
    ];
    sanitize_output_path_from_report(&mut reports);
    assert_eq!(reports.len(), 2);
    assert_eq!(reports[0].path, "adder.wasm");
    assert_eq!(reports[0].size, 700);
    assert!(!reports[0].has_allocator);
    assert_eq!(reports[0].has_panic, "none");
    assert_eq!(reports[1].path, "vault.wasm");
    assert_eq!(reports[1].size, 9000);
    assert!(reports[1].has_allocator);
    assert_eq!(reports[1].has_panic, "with message");

    sanitize_output_path_from_report(&mut reports);
    assert_eq!(reports[0].path, "adder.wasm");
    assert_eq!(reports[1].path, "vault.wasm");

    let mut none: Vec<CodeReportJson> = Vec::new();
    sanitize_output_path_from_report(&mut none);
    assert!(none.is_empty());
}

#[test]
fn endpoint_kinds_name_their_abi_type() {
    assert_eq!(EndpointTypeMetadata::Init.abi_path(), "dharitri_sc::abi::EndpointTypeAbi::Init");
    assert_eq!(
        EndpointTypeMetadata::Upgrade.abi_path(),
        "dharitri_sc::abi::EndpointTypeAbi::Upgrade"
    );
    assert_eq!(
        EndpointTypeMetadata::Endpoint.abi_path(),
        "dharitri_sc::abi::EndpointTypeAbi::Endpoint"
    );
    assert_eq!(
        EndpointTypeMetadata::PromisesCallback.abi_path(),
        "dharitri_sc::abi::EndpointTypeAbi::PromisesCallback"
    );
}
