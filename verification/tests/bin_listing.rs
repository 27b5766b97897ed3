use loom_server::routes::bin::{bin_index_page, listing, modified_text, render_listing, BinEntry, LISTING_HEAD};

fn entry(name: &str, is_dir: bool, size: &str) -> BinEntry {
    BinEntry { name: name.to_string(), is_dir, size_text: size.to_string(), modified: "-".to_string() }
}

#[test]
fn directories_first_then_by_name() {
    let entries = vec![entry("zeta", false, "1K"), entry("docs", true, ""), entry("alpha", false, "2"), entry("bin", true, "")];
    assert_eq!(listing(&entries), vec![3, 1, 2, 0]);
}

#[test]
fn page_rows() {
    let entries = vec![entry("loom", false, "1.5M"), entry("lib", true, "")];
    let page = bin_index_page(&entries);
    assert!(page.starts_with(LISTING_HEAD));
    assert!(page.ends_with("</table>\n</body>\n</html>"));
    let rows = &page[LISTING_HEAD.len()..page.len() - "</table>\n</body>\n</html>".len()];
    assert_eq!(
        rows,
        "<tr><td class=\"dir\"><a href=\"/bin/lib\">lib/</a></td><td class=\"size\">-</td><td>-</td></tr>\n<tr><td><a href=\"/bin/loom\">loom</a></td><td class=\"size\">1.5M</td><td>-</td></tr>\n"
    );
}

#[test]
fn empty_directory_page() {
    let page = render_listing(&vec![], &vec![]);
    assert_eq!(page, format!("{}</table>\n</body>\n</html>", LISTING_HEAD));
    assert!(LISTING_HEAD.contains("<title>Index of /bin/</title>"));
}

#[test]
fn entries_listed_alike_keep_their_order() {
    let entries = vec![
        entry("tool", false, "1"),
        entry("lib", true, ""),
        entry("tool", false, "2"),
        entry("lib", true, ""),
        entry("tool", false, "3"),
    ];
    assert_eq!(listing(&entries), vec![1, 3, 0, 2, 4]);
}

#[test]
fn modification_times_read_as_utc_minutes() {
    assert_eq!(modified_text(None), "-");
    assert_eq!(modified_text(Some(0)), "1970-01-01 00:00");
    assert_eq!(modified_text(Some(1_704_164_645)), "2024-01-02 03:04");
    assert_eq!(modified_text(Some(u64::MAX)), "1969-12-31 23:59");
    assert_eq!(modified_text(Some(i64::MAX as u64)), "1970-01-01 00:00");
}
