use retsurf::dom::{parse_html, render_node};

#[test]
fn it_works() {
    let html = r#"
            <html>
                <head><title>Example</title></head>
                <body>
                    <h1>Hello, world!</h1>
                    <p>This is a paragraph.</p>
                </body>
            </html>
        "#;
    let dom = parse_html(html);
    for line in render_node(&dom, "") {
        println!("{line}");
    }
}

#[test]
fn outline_lists_elements_in_document_order() {
    let dom = parse_html("<html><body><h1>Hi</h1></body></html>");
    let lines = render_node(&dom, "");
    let elements: Vec<&String> = lines.iter().filter(|l| l.contains("Element: ")).collect();
    assert_eq!(elements[0].trim_start(), "Element: html");
    assert_eq!(elements[1].trim_start(), "Element: head");
    assert_eq!(elements[2].trim_start(), "Element: body");
    assert_eq!(elements[3].trim_start(), "Element: h1");
    assert!(lines.iter().any(|l| l.trim_start() == "Text: Hi"));
    // Indentation grows two spaces per level: html sits one level under
    // the document root.
    assert!(lines[0].starts_with("  Element: html"));
}
