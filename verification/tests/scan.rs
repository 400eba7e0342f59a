use pdf_shell::scan::{has_pdf_suffix, scan_startup_args};

fn strings(items: &[&str]) -> Vec<String> {
    items.iter().map(|s| s.to_string()).collect()
}

#[test]
fn suffix_matches_any_case() {
    assert!(has_pdf_suffix("report.pdf"));
    assert!(has_pdf_suffix("report.PDF"));
    assert!(has_pdf_suffix("report.Pdf"));
    assert!(has_pdf_suffix("report.pDf"));
    assert!(has_pdf_suffix(".pdf"));
}

#[test]
fn suffix_rejects_other_names() {
    assert!(!has_pdf_suffix("notes.txt"));
    assert!(!has_pdf_suffix("pdf"));
    assert!(!has_pdf_suffix(""));
    assert!(!has_pdf_suffix("a.pdfx"));
    assert!(!has_pdf_suffix("apdf"));
    assert!(!has_pdf_suffix("report.pdf.bak"));
}

#[test]
fn scan_keeps_existing_pdf_arguments_in_order() {
    let args = strings(&["app", "b.pdf", "a.pdf"]);
    let exists = vec![true, true, true];
    let r = scan_startup_args(&args, &exists);
    assert_eq!(r, strings(&["b.pdf", "a.pdf"]));
}

#[test]
fn scan_example_mixed_arguments() {
    // A case-insensitive match that exists is kept; a non-PDF argument and a
    // missing PDF path are excluded; the executable path is skipped.
    let args = strings(&["app", "/tmp/report.PDF", "notes.txt", "/missing/x.pdf"]);
    let exists = vec![true, true, true, false];
    let r = scan_startup_args(&args, &exists);
    assert_eq!(r, strings(&["/tmp/report.PDF"]));
}

#[test]
fn scan_skips_executable_path_even_if_pdf() {
    let args = strings(&["viewer.pdf", "doc.pdf"]);
    let exists = vec![true, true];
    let r = scan_startup_args(&args, &exists);
    assert_eq!(r, strings(&["doc.pdf"]));
}

#[test]
fn scan_without_matches_is_empty() {
    let args = strings(&["app", "notes.txt", "x.png"]);
    let exists = vec![true, true, true];
    let r = scan_startup_args(&args, &exists);
    assert!(r.is_empty());
}

#[test]
fn scan_excludes_missing_paths() {
    let args = strings(&["app", "gone.pdf"]);
    let exists = vec![true, false];
    let r = scan_startup_args(&args, &exists);
    assert!(r.is_empty());
}

#[test]
fn scan_of_bare_executable_is_empty() {
    let args = strings(&["app"]);
    let exists = vec![true];
    let r = scan_startup_args(&args, &exists);
    assert!(r.is_empty());
}
