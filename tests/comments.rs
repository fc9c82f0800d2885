use rspack_deps::comments::{
    contains_text, extract_comments_pattern, extract_matching_comments, format_extracted, is_license_comment,
    match_object, minify_file_comments, Comment, CommentGroup, CommentKind, JsMinifyCommentOption, ModuleComments,
};

fn c(kind: CommentKind, text: &str) -> Comment {
    Comment { kind, text: text.to_string() }
}

fn sample() -> ModuleComments {
    ModuleComments {
        leading: vec![
            CommentGroup { pos: 1, comments: vec![c(CommentKind::Block, "! keep me"), c(CommentKind::Line, "drop")] },
            CommentGroup { pos: 9, comments: vec![c(CommentKind::Line, "nothing here")] },
        ],
        trailing: vec![CommentGroup { pos: 20, comments: vec![c(CommentKind::Block, " @license MIT ")] }],
    }
}

#[test]
fn preserve_some_keeps_license_comments() {
    let mut m = sample();
    minify_file_comments(&mut m, JsMinifyCommentOption::PreserveSomeComments);
    assert_eq!(m.leading.len(), 1);
    assert_eq!(m.leading[0].pos, 1);
    assert_eq!(m.leading[0].comments.len(), 1);
    assert_eq!(m.leading[0].comments[0].text, "! keep me");
    assert_eq!(m.trailing.len(), 1);
    assert_eq!(m.trailing[0].comments[0].text, " @license MIT ");
}

#[test]
fn preserve_all_and_none() {
    let mut all = sample();
    minify_file_comments(&mut all, JsMinifyCommentOption::PreserveAllComments);
    assert_eq!(all.leading.len(), 2);
    assert_eq!(all.leading[0].comments.len(), 2);
    let mut none = sample();
    minify_file_comments(&mut none, JsMinifyCommentOption::False);
    assert!(none.leading.is_empty());
    assert!(none.trailing.is_empty());
}

#[test]
fn license_detection() {
    assert!(is_license_comment("!"));
    assert!(is_license_comment("see @license"));
    assert!(!is_license_comment(" !not at start"));
    assert!(!is_license_comment("@licens"));
    assert!(!is_license_comment(""));
    assert!(contains_text("abc", ""));
    assert!(contains_text("abcabd", "abd"));
    assert!(!contains_text("ab", "abc"));
}

#[test]
fn extraction_pattern_from_option() {
    assert_eq!(extract_comments_pattern("true").as_deref(), Some("@preserve|@lic|@cc_on|^\\**!"));
    assert_eq!(extract_comments_pattern("/foo/i").as_deref(), Some("foo"));
    assert_eq!(extract_comments_pattern("/abc/").as_deref(), Some("abc"));
    assert_eq!(extract_comments_pattern("/a/b/gi").as_deref(), Some("a/b"));
    assert_eq!(extract_comments_pattern("//"), Some(String::new()));
    assert_eq!(extract_comments_pattern("/x"), None);
    assert_eq!(extract_comments_pattern("ab"), None);
}

#[test]
fn extracted_comments_in_order() {
    let pattern = extract_comments_pattern("true").unwrap();
    let texts = extract_matching_comments(&pattern, &sample()).unwrap();
    assert_eq!(texts, vec!["/*! keep me*/".to_string(), "/* @license MIT */".to_string()]);
    let only_drop = extract_matching_comments("^dr", &sample()).unwrap();
    assert_eq!(only_drop, vec!["// drop".to_string()]);
    assert_eq!(format_extracted(CommentKind::Line, &"x".to_string()), "// x");
}

#[test]
fn invalid_extraction_pattern() {
    assert!(extract_matching_comments("(unclosed", &sample()).is_err());
    let empty = ModuleComments { leading: vec![], trailing: vec![] };
    assert_eq!(extract_matching_comments("(unclosed", &empty).unwrap(), Vec::<String>::new());
}

#[test]
fn minify_conditions() {
    assert!(match_object(None, None, None));
    assert!(match_object(Some(true), Some(true), Some(false)));
    assert!(!match_object(Some(false), None, None));
    assert!(!match_object(None, Some(false), None));
    assert!(!match_object(None, None, Some(true)));
}
