use css_server::pages::{list_pages, page_not_found, page_slug, MissingPage, Page, PageResponse};

fn page(title: &str, slug: &str) -> Page {
    Page {
        title: title.to_string(),
        html_content: format!("<h1>{}</h1>", title),
        slug: slug.to_string(),
        relative_path: format!("{}.md", slug),
    }
}

#[test]
fn slugs_drop_leading_slashes() {
    assert_eq!(page_slug("/tools/lathe"), "tools/lathe");
    assert_eq!(page_slug("///index"), "index");
    assert_eq!(page_slug("plain"), "plain");
    assert_eq!(page_slug("/"), "");
}

#[test]
fn listings_and_pages() {
    let list = list_pages(&[page("Lathe", "tools/lathe"), page("Home", "index")]);
    assert_eq!(list.pages.len(), 2);
    assert_eq!(list.pages[0].title, "Lathe");
    assert_eq!(list.pages[1].relative_path, "index.md");
    let served = PageResponse::from_page(page("Home", "index"), Some("https://git.example/wiki".to_string()), None);
    assert_eq!(served.slug, "index");
    assert_eq!(served.html_content, "<h1>Home</h1>");
    assert_eq!(served.repo_url.as_deref(), Some("https://git.example/wiki"));
    assert!(served.default_branch.is_none());
}

#[test]
fn missing_pages() {
    assert_eq!(page_not_found(MissingPage::Wiki, "x"), ("Wiki page not found".to_string(), Some("x".to_string())));
    assert_eq!(page_not_found(MissingPage::SiteIndex, "x"), ("Site index page not found".to_string(), None));
    assert_eq!(page_not_found(MissingPage::Site, "y").1.as_deref(), Some("y"));
}
