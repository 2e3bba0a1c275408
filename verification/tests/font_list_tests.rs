use fastty::fontlist::{fc_list_families, linux_font_families, windows_font_families};

#[test]
fn fc_list_output_gives_sorted_unique_families() {
    let out = "DejaVu Sans,DejaVu Sans Light\nFira Code\n.Hidden Font\n  Hack  \nDejaVu Sans\n\n,\r\nAbyssinica SIL";
    assert_eq!(
        fc_list_families(out),
        vec!["Abyssinica SIL", "DejaVu Sans", "DejaVu Sans Light", "Fira Code", "Hack"]
    );
    assert_eq!(linux_font_families(Some(out)).len(), 5);
}

#[test]
fn linux_falls_back_without_families() {
    let fallback = linux_font_families(None);
    assert_eq!(fallback.len(), 12);
    assert_eq!(fallback[0], "DejaVu Sans");
    assert_eq!(fallback[11], "sans-serif");
    assert_eq!(linux_font_families(Some(" , .hidden\n")), fallback);
}

#[test]
fn registry_listing_gives_families_sorted_case_insensitively() {
    let out = "\r\nHKEY_LOCAL_MACHINE\\SOFTWARE\\Microsoft\\Windows NT\\CurrentVersion\\Fonts\r\n    Arial (TrueType)    REG_SZ    arial.ttf\r\n    consolas (TrueType)    REG_SZ    consola.ttf\r\n    Arial (TrueType)    REG_SZ    arial.ttf\r\n    Cascadia Code    REG_SZ    CascadiaCode.ttf\r\n    .Hidden    REG_SZ    h.ttf\r\n";
    assert_eq!(windows_font_families(Some(out)), vec!["Arial", "Cascadia Code", "consolas"]);
}

#[test]
fn windows_falls_back_without_families() {
    let fallback = windows_font_families(Some("HKEY_LOCAL_MACHINE\\X\r\n\r\n"));
    assert_eq!(fallback.len(), 22);
    assert_eq!(fallback[0], "Arial");
    assert_eq!(fallback[21], "monospace");
    assert_eq!(windows_font_families(None), fallback);
}
