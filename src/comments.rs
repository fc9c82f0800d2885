use vstd::prelude::*;

use crate::text::owned;
use crate::regex_match::{regex_captures, regex_captures_of};

verus! {

#[derive(Debug, Clone, Copy, PartialEq, Eq, Structural)]
pub enum CommentKind {
    Line,
    Block,
}

/// A source comment: its kind and its text without delimiters.
#[derive(Debug)]
pub struct Comment {
    pub kind: CommentKind,
    pub text: String,
}

/// The comments attached at one source position.
#[derive(Debug)]
pub struct CommentGroup {
    pub pos: u32,
    pub comments: Vec<Comment>,
}

/// The leading and trailing comments of a module.
#[derive(Debug)]
pub struct ModuleComments {
    pub leading: Vec<CommentGroup>,
    pub trailing: Vec<CommentGroup>,
}

/// Which comments the minified output keeps.
#[derive(Debug, Clone, Copy, PartialEq, Eq, Structural)]
pub enum JsMinifyCommentOption {
    PreserveAllComments,
    PreserveSomeComments,
    False,
}

pub type CommentV = (CommentKind, Seq<char>);

pub type GroupV = (u32, Seq<CommentV>);

pub open spec fn comment_view(c: Comment) -> CommentV {
    (c.kind, c.text@)
}

pub open spec fn group_view(g: CommentGroup) -> GroupV {
    (g.pos, g.comments@.map_values(|c: Comment| comment_view(c)))
}

pub open spec fn groups_of(v: Seq<CommentGroup>) -> Seq<GroupV> {
    v.map_values(|g: CommentGroup| group_view(g))
}

/// Whether `pat` occurs in `text` at position `i`.
pub open spec fn occurs_at(text: Seq<char>, pat: Seq<char>, i: int) -> bool {
    0 <= i && i + pat.len() <= text.len() && text.subrange(i, i + pat.len()) == pat
}

pub open spec fn text_contains(text: Seq<char>, pat: Seq<char>) -> bool {
    exists|i: int| #[trigger] occurs_at(text, pat, i)
}

/// A license comment: it mentions `@license` or starts with `!`.
pub open spec fn is_license(text: Seq<char>) -> bool {
    text_contains(text, "@license"@) || (text.len() > 0 && text[0] == '!')
}

pub open spec fn licenses_only(cs: Seq<CommentV>) -> Seq<CommentV>
    decreases cs.len(),
{
    if cs.len() == 0 {
        Seq::empty()
    } else {
        let r = licenses_only(cs.drop_last());
        if is_license(cs.last().1) {
            r.push(cs.last())
        } else {
            r
        }
    }
}

/// The groups with only their license comments, groups left empty dropped.
pub open spec fn license_groups(gs: Seq<GroupV>) -> Seq<GroupV>
    decreases gs.len(),
{
    if gs.len() == 0 {
        Seq::empty()
    } else {
        let r = license_groups(gs.drop_last());
        let kept = licenses_only(gs.last().1);
        if kept.len() > 0 {
            r.push((gs.last().0, kept))
        } else {
            r
        }
    }
}

fn contains_at(text: &str, pat: &str, i: usize, n: usize, m: usize) -> (r: bool)
    requires
        n == text@.len(),
        m == pat@.len(),
        i + m <= n,
    ensures
        r == occurs_at(text@, pat@, i as int),
{
    let mut j: usize = 0;
    while j < m
        invariant
            n == text@.len(),
            m == pat@.len(),
            i + m <= n,
            0 <= j <= m,
            forall|k: int| 0 <= k < j ==> text@[i + k] == pat@[k],
        decreases m - j,
    {
        if text.get_char(i + j) != pat.get_char(j) {
            proof {
                assert(text@.subrange(i as int, i + m)[j as int] != pat@[j as int]);
            }
            return false;
        }
        j = j + 1;
    }
    assert(text@.subrange(i as int, i + m) =~= pat@);
    true
}

/// Whether `pat` occurs in `text`.
pub fn contains_text(text: &str, pat: &str) -> (r: bool)
    ensures
        r == text_contains(text@, pat@),
{
    let n = text.unicode_len();
    let m = pat.unicode_len();
    if m > n {
        return false;
    }
    if m == 0 {
        assert(text@.subrange(0, 0) =~= pat@);
        assert(occurs_at(text@, pat@, 0));
        return true;
    }
    let mut i: usize = 0;
    while i <= n - m
        invariant
            n == text@.len(),
            m == pat@.len(),
            1 <= m <= n,
            0 <= i <= n - m + 1,
            forall|k: int| 0 <= k < i ==> !occurs_at(text@, pat@, k),
        decreases n + 1 - i,
    {
        if contains_at(text, pat, i, n, m) {
            return true;
        }
        i = i + 1;
    }
    proof {
        assert forall|k: int| !(#[trigger] occurs_at(text@, pat@, k)) by {
            if 0 <= k < i {
            } else if k >= i {
                assert(k + m > n);
            }
        }
    }
    false
}

/// Whether a comment is a license comment.
pub fn is_license_comment(text: &str) -> (r: bool)
    ensures
        r == is_license(text@),
{
    if contains_text(text, "@license") {
        return true;
    }
    text.unicode_len() > 0 && text.get_char(0) == '!'
}

fn keep_licenses(groups: Vec<CommentGroup>) -> (r: Vec<CommentGroup>)
    ensures
        groups_of(r@) == license_groups(groups_of(groups@)),
{
    let ghost all = groups@;
    let mut rest = groups;
    let mut out: Vec<CommentGroup> = Vec::new();
    let n = rest.len();
    let mut k: usize = 0;
    while rest.len() > 0
        invariant
            n == all.len(),
            k <= n,
            rest@ == all.skip(k as int),
            groups_of(out@) == license_groups(groups_of(all.take(k as int))),
        decreases rest@.len(),
    {
        let g = rest.remove(0);
        proof {
            assert(g == all[k as int]);
            assert(rest@ =~= all.skip(k as int + 1));
            assert(groups_of(all.take(k as int + 1)).drop_last() =~= groups_of(all.take(k as int)));
            assert(groups_of(all.take(k as int + 1)).last() == group_view(g));
        }
        let CommentGroup { pos, comments } = g;
        let ghost cs = comments@;
        let mut kept: Vec<Comment> = Vec::new();
        let mut crest = comments;
        let m = crest.len();
        let mut j: usize = 0;
        while crest.len() > 0
            invariant
                m == cs.len(),
                j <= m,
                crest@ == cs.skip(j as int),
                kept@.map_values(|c: Comment| comment_view(c)) == licenses_only(
                    cs.take(j as int).map_values(|c: Comment| comment_view(c)),
                ),
            decreases crest@.len(),
        {
            let c = crest.remove(0);
            let ghost before = kept@;
            proof {
                assert(c == cs[j as int]);
                assert(crest@ =~= cs.skip(j as int + 1));
                let f = |c: Comment| comment_view(c);
                assert(cs.take(j as int + 1).map_values(f).drop_last() =~= cs.take(j as int).map_values(f));
                assert(cs.take(j as int + 1).map_values(f).last() == comment_view(c));
            }
            if is_license_comment(c.text.as_str()) {
                kept.push(c);
                proof {
                    assert(kept@.map_values(|c: Comment| comment_view(c)) =~= before.map_values(|c: Comment| comment_view(c)).push(comment_view(c)));
                }
            }
            j = j + 1;
        }
        proof {
            assert(cs.take(j as int) =~= cs);
        }
        if kept.len() > 0 {
            let ghost before = out@;
            let ng = CommentGroup { pos, comments: kept };
            out.push(ng);
            proof {
                assert(groups_of(out@) =~= groups_of(before).push(group_view(ng)));
            }
        } else {
            proof {
                assert(licenses_only(cs.map_values(|c: Comment| comment_view(c))).len() == 0);
            }
        }
        k = k + 1;
    }
    proof {
        assert(all.take(k as int) =~= all);
    }
    out
}

/// Drops comments from a minified module: all of them, none, or all but license comments
/// (positions left without comments disappear).
pub fn minify_file_comments(comments: &mut ModuleComments, preserve_comments: JsMinifyCommentOption)
    ensures
        preserve_comments == JsMinifyCommentOption::PreserveAllComments ==> groups_of(final(comments).leading@) == groups_of(
            old(comments).leading@,
        ) && groups_of(final(comments).trailing@) == groups_of(old(comments).trailing@),
        preserve_comments == JsMinifyCommentOption::PreserveSomeComments ==> groups_of(final(comments).leading@)
            == license_groups(groups_of(old(comments).leading@)) && groups_of(final(comments).trailing@)
            == license_groups(groups_of(old(comments).trailing@)),
        preserve_comments == JsMinifyCommentOption::False ==> final(comments).leading@.len() == 0
            && final(comments).trailing@.len() == 0,
{
    match preserve_comments {
        JsMinifyCommentOption::PreserveAllComments => {},
        JsMinifyCommentOption::PreserveSomeComments => {
            let mut leading: Vec<CommentGroup> = Vec::new();
            std::mem::swap(&mut leading, &mut comments.leading);
            comments.leading = keep_licenses(leading);
            let mut trailing: Vec<CommentGroup> = Vec::new();
            std::mem::swap(&mut trailing, &mut comments.trailing);
            comments.trailing = keep_licenses(trailing);
        },
        JsMinifyCommentOption::False => {
            comments.leading.clear();
            comments.trailing.clear();
        },
    }
}

/// How an extracted comment is written in the license file.
pub open spec fn extracted_text(c: CommentV) -> Seq<char> {
    match c.0 {
        CommentKind::Line => "// "@ + c.1,
        CommentKind::Block => "/*"@ + c.1 + "*/"@,
    }
}

pub fn format_extracted(kind: CommentKind, text: &String) -> (r: String)
    ensures
        r@ == extracted_text((kind, text@)),
{
    match kind {
        CommentKind::Line => owned("// ").concat(text.as_str()),
        CommentKind::Block => owned("/*").concat(text.as_str()).concat("*/"),
    }
}

/// The position of the last `c` in `s`, or -1.
pub open spec fn last_index_of(s: Seq<char>, c: char) -> int
    decreases s.len(),
{
    if s.len() == 0 {
        -1
    } else if s.last() == c {
        s.len() - 1
    } else {
        last_index_of(s.drop_last(), c)
    }
}

/// The pattern that selects the comments to extract: the default license pattern for
/// `true`; for a regular expression literal `/body/flags`, its body (between the leading
/// `/` and the last `/`); none for any other text.
pub open spec fn extract_pattern_of(option: Seq<char>) -> Option<Seq<char>> {
    if option == "true"@ {
        Some("@preserve|@lic|@cc_on|^\\**!"@)
    } else if option.len() > 0 && option[0] == '/' && last_index_of(option, '/') > 0 {
        Some(option.subrange(1, last_index_of(option, '/')))
    } else {
        None
    }
}

fn last_slash(option: &str, n: usize) -> (r: usize)
    requires
        n == option@.len(),
    ensures
        r <= n,
        r < n ==> r as int == last_index_of(option@, '/'),
        r == n ==> last_index_of(option@, '/') == -1,
{
    proof {
        assert(option@.take(n as int) =~= option@);
    }
    let mut i: usize = n;
    while i > 0
        invariant
            n == option@.len(),
            i <= n,
            last_index_of(option@, '/') == last_index_of(option@.take(i as int), '/'),
        decreases i,
    {
        proof {
            assert(option@.take(i as int).drop_last() =~= option@.take(i as int - 1));
            assert(option@.take(i as int).last() == option@[i - 1]);
        }
        if option.get_char(i - 1) == '/' {
            return i - 1;
        }
        i = i - 1;
    }
    n
}

pub fn extract_comments_pattern(option: &str) -> (r: Option<String>)
    ensures
        r is None <==> extract_pattern_of(option@) is None,
        r matches Some(p) ==> extract_pattern_of(option@) == Some(p@),
{
    if crate::text::str_eq(option, "true") {
        return Some(owned("@preserve|@lic|@cc_on|^\\**!"));
    }
    let n = option.unicode_len();
    if n == 0 || option.get_char(0) != '/' {
        return None;
    }
    let j = last_slash(option, n);
    if j == n || j == 0 {
        return None;
    }
    Some(owned(option.substring_char(1, j)))
}

/// The comments of all groups, group by group.
pub open spec fn flat(gs: Seq<GroupV>) -> Seq<CommentV>
    decreases gs.len(),
{
    if gs.len() == 0 {
        Seq::empty()
    } else {
        flat(gs.drop_last()) + gs.last().1
    }
}

/// The extracted texts of the comments the pattern matches, in order; none when the
/// pattern does not compile and there is a comment to try it on.
pub open spec fn extract_from(pattern: Seq<char>, cs: Seq<CommentV>) -> Option<Seq<Seq<char>>>
    decreases cs.len(),
{
    if cs.len() == 0 {
        Some(Seq::empty())
    } else {
        match extract_from(pattern, cs.drop_last()) {
            None => None,
            Some(r) => match regex_captures_of(pattern, cs.last().1) {
                None => None,
                Some(Some(_)) => Some(r.push(extracted_text(cs.last()))),
                Some(None) => Some(r),
            },
        }
    }
}

/// A pattern for extracting comments that the regex engine rejects.
#[derive(Debug)]
pub struct InvalidExtractPattern;

/// The progress of an extraction over a list of comments: failed, or the texts so far.
pub open spec fn extraction_at(pattern: Seq<char>, cs: Seq<CommentV>, failed: bool, out: Seq<String>) -> bool {
    if failed {
        extract_from(pattern, cs) is None
    } else {
        extract_from(pattern, cs) == Some(crate::records::strings_view(out))
    }
}

/// Collects the comments that the pattern matches, leading comments first, each written
/// as in a license file.
pub fn extract_matching_comments(pattern: &str, comments: &ModuleComments) -> (r: Result<Vec<String>, InvalidExtractPattern>)
    ensures
        r is Err <==> extract_from(pattern@, flat(groups_of(comments.leading@)) + flat(groups_of(comments.trailing@))) is None,
        r matches Ok(v) ==> extract_from(pattern@, flat(groups_of(comments.leading@)) + flat(groups_of(comments.trailing@)))
            == Some(crate::records::strings_view(v@)),
{
    let mut out: Vec<String> = Vec::new();
    let mut failed = false;
    let ghost all = flat(groups_of(comments.leading@)) + flat(groups_of(comments.trailing@));
    proof {
        assert(crate::records::strings_view(out@) =~= Seq::<Seq<char>>::empty());
    }
    let mut pass: usize = 0;
    while pass < 2
        invariant
            0 <= pass <= 2,
            all == flat(groups_of(comments.leading@)) + flat(groups_of(comments.trailing@)),
            pass == 0 ==> extraction_at(pattern@, Seq::empty(), failed, out@),
            pass == 1 ==> extraction_at(pattern@, flat(groups_of(comments.leading@)), failed, out@),
            pass == 2 ==> extraction_at(pattern@, all, failed, out@),
        decreases 2 - pass,
    {
        let groups = if pass == 0 {
            &comments.leading
        } else {
            &comments.trailing
        };
        let ghost done: Seq<CommentV> = if pass == 0 {
            Seq::empty()
        } else {
            flat(groups_of(comments.leading@))
        };
        proof {
            assert(groups_of(groups@.take(0)) =~= Seq::<GroupV>::empty());
            assert(done + flat(groups_of(groups@.take(0))) =~= done);
        }
        let n = groups.len();
        let mut i: usize = 0;
        while i < n
            invariant
                n == groups@.len(),
                0 <= i <= n,
                extraction_at(pattern@, done + flat(groups_of(groups@.take(i as int))), failed, out@),
            decreases n - i,
        {
            let g = &groups[i];
            let m = g.comments.len();
            let mut j: usize = 0;
            let ghost base = done + flat(groups_of(groups@.take(i as int)));
            let ghost gcs = group_view(*g).1;
            proof {
                assert(base + gcs.take(0) =~= base);
            }
            while j < m
                invariant
                    m == g.comments@.len(),
                    gcs == g.comments@.map_values(|c: Comment| comment_view(c)),
                    0 <= j <= m,
                    extraction_at(pattern@, base + gcs.take(j as int), failed, out@),
                decreases m - j,
            {
                let c = &g.comments[j];
                proof {
                    assert((base + gcs.take(j as int + 1)).drop_last() =~= base + gcs.take(j as int));
                    assert((base + gcs.take(j as int + 1)).last() == comment_view(*c));
                }
                if !failed {
                    match regex_captures(pattern, c.text.as_str()) {
                        Err(_) => {
                            failed = true;
                        },
                        Ok(Some(_)) => {
                            let ghost before = out@;
                            let t = format_extracted(c.kind, &c.text);
                            let ghost tv = t@;
                            out.push(t);
                            proof {
                                assert(crate::records::strings_view(out@) =~= crate::records::strings_view(before).push(tv));
                            }
                        },
                        Ok(None) => {},
                    }
                }
                j = j + 1;
            }
            proof {
                assert(gcs.take(m as int) =~= gcs);
                let t = groups_of(groups@.take(i as int + 1));
                assert(t.drop_last() =~= groups_of(groups@.take(i as int)));
                assert(t.last() == group_view(*g));
                assert(done + flat(t) =~= base + gcs);
            }
            i = i + 1;
        }
        proof {
            assert(groups@.take(n as int) =~= groups@);
            if pass == 0 {
                assert(done + flat(groups_of(groups@)) =~= flat(groups_of(comments.leading@)));
            } else {
                assert(done + flat(groups_of(groups@)) =~= all);
            }
        }
        pass = pass + 1;
    }
    if failed {
        Err(InvalidExtractPattern)
    } else {
        Ok(out)
    }
}

/// Whether a module is minified with `match_object`'s conditions: the configured
/// test and inclusion conditions all hold and a configured exclusion does not.
pub fn match_object(test: Option<bool>, included: Option<bool>, excluded: Option<bool>) -> (r: bool)
    ensures
        r == (test != Some(false) && included != Some(false) && excluded != Some(true)),
{
    if let Some(t) = test {
        if !t {
            return false;
        }
    }
    if let Some(i) = included {
        if !i {
            return false;
        }
    }
    if let Some(e) = excluded {
        if e {
            return false;
        }
    }
    true
}

} // verus!
