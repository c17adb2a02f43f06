//! The markup of the tab strip and the scripts that the rendering surface
//! is asked to evaluate.

use crate::tabs::{Tab, TabView};
use crate::text::{chars_of, decimal, escaped, push_decimal, push_escaped};
use vstd::prelude::*;

verus! {

/// The most bytes of a title's UTF-8 form that a tab shows in full.
pub const TITLE_LIMIT: usize = 18;

/// The bytes kept of a title that is over the limit.
pub const TITLE_KEPT: usize = 15;

/// The number of bytes that `c` takes in UTF-8.
pub open spec fn utf8_width(c: char) -> nat {
    if (c as u32) < 0x80 {
        1
    } else if (c as u32) < 0x800 {
        2
    } else if (c as u32) < 0x10000 {
        3
    } else {
        4
    }
}

/// The number of bytes that `s` takes in UTF-8.
pub open spec fn utf8_size(s: Seq<char>) -> nat
    decreases s.len(),
{
    if s.len() == 0 {
        0
    } else {
        utf8_size(s.drop_last()) + utf8_width(s.last())
    }
}

/// How many characters from the start of `s` fit into `budget` bytes of
/// UTF-8.
pub open spec fn fitting(s: Seq<char>, budget: int) -> nat
    decreases s.len(),
{
    if s.len() == 0 || utf8_width(s[0]) > budget {
        0
    } else {
        1 + fitting(s.drop_first(), budget - utf8_width(s[0]))
    }
}

/// The title as a tab shows it: whole if it takes at most 18 bytes of
/// UTF-8, else the longest start of it that fits into 15 bytes, followed by
/// three dots.
pub open spec fn short_title(title: Seq<char>) -> Seq<char> {
    if utf8_size(title) > TITLE_LIMIT {
        title.take(fitting(title, TITLE_KEPT as int) as int) + "..."@
    } else {
        title
    }
}

/// The markup of one tab.
pub open spec fn tab_html(id: nat, title: Seq<char>, active: bool) -> Seq<char> {
    "<div class=\"tab "@ + (if active {
        "active"@
    } else {
        Seq::empty()
    }) + "\" data-id=\""@ + decimal(id) + "\"><span class=\"tab-title\">"@ + short_title(title)
        + "</span><span class=\"tab-close\" data-id=\""@ + decimal(id) + "\">\u{d7}</span></div>"@
}

/// The tabs that rows stand for. A row holds a tab's id, its title and its
/// address, in that order.
pub open spec fn row_views(rows: Seq<(usize, String, String)>) -> Seq<TabView> {
    Seq::new(
        rows.len(),
        |i: int| TabView { id: rows[i].0 as nat, url: rows[i].2@, title: rows[i].1@ },
    )
}

/// The markup of the tab strip: that of each tab, in order. The tab whose
/// id is `active` is marked as the active one.
pub open spec fn tabs_html(tabs: Seq<TabView>, active: nat) -> Seq<char>
    decreases tabs.len(),
{
    if tabs.len() == 0 {
        Seq::empty()
    } else {
        tabs_html(tabs.drop_last(), active) + tab_html(
            tabs.last().id,
            tabs.last().title,
            tabs.last().id == active,
        )
    }
}

/// The number of bytes that `c` takes in UTF-8.
fn width_of(c: char) -> (w: usize)
    ensures
        w == utf8_width(c),
        1 <= w <= 4,
{
    let u: u32 = c as u32;
    if u < 0x80 {
        1
    } else if u < 0x800 {
        2
    } else if u < 0x10000 {
        3
    } else {
        4
    }
}

/// A start of a text takes no more bytes than the text.
proof fn lemma_size_of_start(s: Seq<char>, n: int)
    requires
        0 <= n <= s.len(),
    ensures
        utf8_size(s.take(n)) <= utf8_size(s),
    decreases s.len(),
{
    if n < s.len() {
        assert(s.drop_last().take(n) =~= s.take(n));
        lemma_size_of_start(s.drop_last(), n);
    } else {
        assert(s.take(n) =~= s);
    }
}

/// Whether `s` takes more than `limit` bytes in UTF-8.
fn over_limit(s: &Vec<char>, limit: usize) -> (over: bool)
    requires
        limit <= usize::MAX - 4,
    ensures
        over == (utf8_size(s@) > limit),
{
    let mut size: usize = 0;
    let mut i: usize = 0;
    while i < s.len()
        invariant
            i <= s.len(),
            size == utf8_size(s@.take(i as int)),
            size <= limit <= usize::MAX - 4,
        decreases s.len() - i,
    {
        let w = width_of(s[i]);
        proof {
            assert(s@.take(i + 1).drop_last() =~= s@.take(i as int));
            lemma_size_of_start(s@, i + 1);
        }
        if size + w > limit {
            return true;
        }
        size += w;
        i += 1;
    }
    proof {
        assert(s@.take(s.len() as int) =~= s@);
    }
    false
}

/// The number of characters from the start of `s` that fit into `budget`
/// bytes of UTF-8.
fn count_fitting(s: &Vec<char>, budget: usize) -> (n: usize)
    ensures
        n == fitting(s@, budget as int),
        n <= s.len(),
{
    let mut left: usize = budget;
    let mut i: usize = 0;
    proof {
        assert(s@.skip(0) =~= s@);
    }
    while i < s.len()
        invariant
            i <= s.len(),
            fitting(s@, budget as int) == i + fitting(s@.skip(i as int), left as int),
        decreases s.len() - i,
    {
        let w = width_of(s[i]);
        proof {
            assert(s@.skip(i as int)[0] == s@[i as int]);
            assert(s@.skip(i as int).drop_first() =~= s@.skip(i + 1));
        }
        if w > left {
            return i;
        }
        left -= w;
        i += 1;
    }
    i
}

/// Appends the title as a tab shows it.
fn push_short_title(out: &mut String, title: &str)
    ensures
        final(out)@ == old(out)@ + short_title(title@),
{
    let chars = chars_of(title);
    if over_limit(&chars, TITLE_LIMIT) {
        let keep = count_fitting(&chars, TITLE_KEPT);
        let mut i: usize = 0;
        while i < keep
            invariant
                i <= keep <= chars.len(),
                out@ == old(out)@ + chars@.take(i as int),
            decreases keep - i,
        {
            out.push(chars[i]);
            i += 1;
            proof {
                assert(chars@.take(i as int) =~= chars@.take(i - 1).push(chars@[i - 1]));
            }
        }
        out.append("...");
        proof {
            assert(out@ =~= old(out)@ + short_title(title@));
        }
    } else {
        out.append(title);
    }
}

/// Appends the markup of one tab.
fn push_tab_html(out: &mut String, id: usize, title: &str, active: bool)
    ensures
        final(out)@ == old(out)@ + tab_html(id as nat, title@, active),
{
    out.append("<div class=\"tab ");
    if active {
        out.append("active");
    }
    out.append("\" data-id=\"");
    push_decimal(out, id);
    out.append("\"><span class=\"tab-title\">");
    push_short_title(out, title);
    out.append("</span><span class=\"tab-close\" data-id=\"");
    push_decimal(out, id);
    out.append("\">\u{d7}</span></div>");
    proof {
        assert(out@ =~= old(out)@ + tab_html(id as nat, title@, active));
    }
}

/// The markup of the tab strip. Each row of `tabs` holds a tab's id, its
/// title and its address; the tab whose id is `active_id` is marked active.
pub fn build_tabs_html(tabs: &[(usize, String, String)], active_id: usize) -> (html: String)
    ensures
        html@ == tabs_html(row_views(tabs@), active_id as nat),
{
    let mut html = String::new();
    let mut i: usize = 0;
    while i < tabs.len()
        invariant
            i <= tabs.len(),
            html@ == tabs_html(row_views(tabs@).take(i as int), active_id as nat),
        decreases tabs.len() - i,
    {
        let row = &tabs[i];
        proof {
            let views = row_views(tabs@);
            assert(views.take(i + 1).drop_last() =~= views.take(i as int));
            assert(views.take(i + 1).last() == views[i as int]);
        }
        push_tab_html(&mut html, row.0, row.1.as_str(), row.0 == active_id);
        i += 1;
    }
    proof {
        assert(row_views(tabs@).take(tabs.len() as int) =~= row_views(tabs@));
    }
    html
}

/// The rows for the tab strip: for each tab its id, its title and its
/// address.
pub fn toolbar_rows(tabs: &Vec<Tab>) -> (rows: Vec<(usize, String, String)>)
    ensures
        row_views(rows@) == tabs.deep_view(),
{
    let mut rows: Vec<(usize, String, String)> = Vec::new();
    let mut i: usize = 0;
    while i < tabs.len()
        invariant
            i <= tabs.len(),
            rows.len() == i,
            forall|j: int| 0 <= j < i ==> row_views(rows@)[j] == tabs@[j]@,
        decreases tabs.len() - i,
    {
        let tab = &tabs[i];
        let ghost before = rows@;
        rows.push((tab.id, tab.title.clone(), tab.url.clone()));
        proof {
            assert forall|j: int| 0 <= j < i + 1 implies row_views(rows@)[j] == tabs@[j]@ by {
                if j < i {
                    assert(rows@[j] == before[j]);
                    assert(row_views(before)[j] == tabs@[j]@);
                }
            }
        }
        i += 1;
    }
    proof {
        assert(row_views(rows@) =~= tabs.deep_view());
    }
    rows
}

/// The script that puts the toolbar into the page.
pub open spec fn toolbar_script(tabs_html: Seq<char>, current_url: Seq<char>) -> Seq<char> {
    "if (window.__injectToolbar) { window.__injectToolbar(`"@ + escaped(tabs_html, '`') + "`, `"@
        + escaped(current_url, '`') + "`); }"@
}

/// The script that puts the toolbar into the page: a call that passes the
/// tab strip's markup and the current address as template literals, with a
/// backslash before each backtick in them.
pub fn inject_toolbar_script(tabs_html: &str, current_url: &str) -> (script: String)
    ensures
        script@ == toolbar_script(tabs_html@, current_url@),
{
    let mut script = "if (window.__injectToolbar) { window.__injectToolbar(`".to_string();
    push_escaped(&mut script, tabs_html, '`');
    script.append("`, `");
    push_escaped(&mut script, current_url, '`');
    script.append("`); }");
    proof {
        assert(script@ =~= toolbar_script(tabs_html@, current_url@));
    }
    script
}

/// The script that sends the page to an address.
pub open spec fn location_script(url: Seq<char>) -> Seq<char> {
    "window.location.href = '"@ + escaped(url, '\'') + "'"@
}

/// The script that sends the page to `url`: an assignment of the address,
/// as a string literal with a backslash before each single quote in it.
pub fn navigation_script(url: &str) -> (script: String)
    ensures
        script@ == location_script(url@),
{
    let mut script = "window.location.href = '".to_string();
    push_escaped(&mut script, url, '\'');
    script.append("'");
    script
}

} // verus!
