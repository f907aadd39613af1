use notion_cli::output::OutputFormat;

#[test]
fn test_output_format_parse_pretty() {
    let format: OutputFormat = "pretty".parse().unwrap();
    assert!(matches!(format, OutputFormat::Pretty));
}

#[test]
fn test_output_format_parse_json() {
    let format: OutputFormat = "json".parse().unwrap();
    assert!(matches!(format, OutputFormat::Json));
}

#[test]
fn test_output_format_parse_raw() {
    let format: OutputFormat = "raw".parse().unwrap();
    assert!(matches!(format, OutputFormat::Raw));
}

#[test]
fn test_output_format_parse_case_insensitive() {
    let format: OutputFormat = "PRETTY".parse().unwrap();
    assert!(matches!(format, OutputFormat::Pretty));

    let format: OutputFormat = "Json".parse().unwrap();
    assert!(matches!(format, OutputFormat::Json));
}

#[test]
fn test_output_format_parse_invalid() {
    let result: std::result::Result<OutputFormat, _> = "xml".parse();
    assert!(result.is_err());
    assert_eq!(result.unwrap_err(), "Unknown output format: xml");
}

#[test]
fn test_output_format_default_is_pretty() {
    let format = OutputFormat::default();
    assert!(matches!(format, OutputFormat::Pretty));
}

#[test]
fn only_raw_is_compact() {
    assert!(OutputFormat::Raw.is_compact());
    assert!(!OutputFormat::Json.is_compact());
    assert!(!OutputFormat::Pretty.is_compact());
}
