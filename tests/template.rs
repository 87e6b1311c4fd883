use gblend::template::{extract_first_paragraph, is_hidden, read_description, Template};

#[test]
fn test_extract_first_paragraph() {
    // Empty content
    assert_eq!(extract_first_paragraph(""), None);

    // Only headings
    assert_eq!(extract_first_paragraph("# Title\n## Subtitle"), None);

    // Only empty lines
    assert_eq!(extract_first_paragraph("\n\n\n"), None);

    // Heading with empty lines before paragraph
    let content = "# Title\n\n\nFirst paragraph.";
    assert_eq!(
        extract_first_paragraph(content),
        Some("First paragraph.".to_string())
    );

    // Multiple headings before paragraph
    let content = "# Title\n## Subtitle\n### Section\nFirst paragraph.";
    assert_eq!(
        extract_first_paragraph(content),
        Some("First paragraph.".to_string())
    );

    // No heading, just paragraph
    assert_eq!(
        extract_first_paragraph("First paragraph."),
        Some("First paragraph.".to_string())
    );
}

#[test]
fn paragraph_lines_are_joined_and_trimmed() {
    let content = "# Greeting\n\n  Says hello\r\nto the world.  \n\nSecond paragraph.\n";
    assert_eq!(
        extract_first_paragraph(content),
        Some("Says hello to the world.".to_string())
    );
}

#[test]
fn paragraph_stops_at_whitespace_only_line() {
    let content = "A\nB\n \t \nC";
    assert_eq!(extract_first_paragraph(content), Some("A B".to_string()));
}

#[test]
fn heading_inside_paragraph_is_kept() {
    let content = "Intro\n# not skipped";
    assert_eq!(
        extract_first_paragraph(content),
        Some("Intro # not skipped".to_string())
    );
}

#[test]
fn hidden_directory_names() {
    assert!(is_hidden(".hidden"));
    assert!(is_hidden("_template"));
    assert!(!is_hidden("normal"));
    assert!(!is_hidden(""));
}

#[test]
fn description_falls_back_to_default() {
    assert_eq!(read_description(None), "No description available");
    assert_eq!(
        read_description(Some("# Only a title\n".to_string())),
        "No description available"
    );
    assert_eq!(
        read_description(Some("Template 1 description".to_string())),
        "Template 1 description"
    );
}

#[test]
fn test_template_creation() {
    // Hidden directory
    let hidden = Template::from_path(
        "/tmp/examples/.hidden".to_string(),
        Some(".hidden".to_string()),
        None,
    );
    assert!(matches!(hidden, Ok(None)));

    // Underscore directory
    let underscore = Template::from_path(
        "/tmp/examples/_template".to_string(),
        Some("_template".to_string()),
        None,
    );
    assert!(matches!(underscore, Ok(None)));

    // A name that is not valid text
    assert!(Template::from_path("/tmp/examples/\u{fffd}".to_string(), None, None).is_err());
}

#[test]
fn template_from_visible_directory() {
    let t = Template::from_path(
        "/tmp/examples/template1".to_string(),
        Some("template1".to_string()),
        Some("Template 1 description".to_string()),
    )
    .unwrap()
    .unwrap();
    assert_eq!(t.name(), "template1");
    assert_eq!(t.description(), "Template 1 description");
    assert_eq!(t.path(), "/tmp/examples/template1");

    let t = Template::from_path(
        "/tmp/examples/template3".to_string(),
        Some("template3".to_string()),
        None,
    )
    .unwrap()
    .unwrap();
    assert_eq!(t.description(), "No description available");
}
