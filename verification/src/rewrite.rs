//! The texts of the derived document: its title, the status line added to
//! its description, the date and the note of origin of each entry, and the
//! corrections that make the document fit to hand on.

use vstd::prelude::*;
use crate::dates::{day_text, format_day, format_release, format_rfc2822, release_text, rfc2822_text};
use crate::feed::{entry_views, link_views, Document, DocumentView, Entry, EntryView, Link, LinkView};
use crate::text::{copy_opt, join, lowercase, opt_view, replace, replaced, to_lowercase};
use crate::time::is_instant;

verus! {

/// The title of the derived document.
pub open spec fn derived_title(title: Seq<char>) -> Seq<char> {
    title + " - PodRacer"@
}

/// The status of the feed, with its identifier: caught up where nothing is
/// withheld; else paused, or the release of the next episode.
pub open spec fn status_line(paused: bool, next: Option<i64>, uuid: Seq<char>) -> Seq<char> {
    (match next {
        None => "PodRacer feed has caught up"@,
        Some(t) => if paused {
            "Feed paused"@
        } else {
            "Next episode publishes "@ + release_text(t)
        },
    }) + " -- PodRacer UUID: "@ + uuid
}

/// The description of the derived document.
pub open spec fn derived_description(description: Seq<char>, status: Seq<char>) -> Seq<char> {
    description + " -- "@ + status
}

/// The link that leads to the page on which the feed is managed.
pub open spec fn management_link(uuid: Seq<char>) -> Seq<char> {
    "<a href=\"http://podracer.zachn.me/edit_feed/"@ + uuid + "\">"@ + uuid + "</a>"@
}

/// A description with the note of origin.
pub open spec fn noted_description(description: Option<Seq<char>>, original: i64, uuid: Seq<char>) -> Seq<
    char,
> {
    replaced(
        match description {
            Some(d) => d,
            None => ""@,
        },
        "\r\n"@,
        "\n"@,
    ) + "\n\nOriginally published on "@ + day_text(original) + "\n\nFeed UUID: "@ + management_link(
        uuid,
    )
}

/// A content with the note of origin.
pub open spec fn noted_content(content: Seq<char>, original: i64, uuid: Seq<char>) -> Seq<char> {
    replaced(content, "\r\n"@, "\n"@) + "<br>Originally published on "@ + day_text(original)
        + "<br><br>Feed UUID:<br>"@ + management_link(uuid)
}

/// The instant an entry is dated with: its release instant, or its original
/// instant where the release would come before it.
pub open spec fn shown_instant(release: i64, original: i64) -> i64 {
    if release < original {
        original
    } else {
        release
    }
}

/// An entry as it is released: dated anew, with the note of origin.
pub open spec fn rewritten_entry(entry: EntryView, original: i64, release: i64, uuid: Seq<char>) -> EntryView {
    EntryView {
        pub_date: Some(rfc2822_text(shown_instant(release, original))),
        description: Some(noted_description(entry.description, original, uuid)),
        content: match entry.content {
            Some(c) => Some(noted_content(c, original, uuid)),
            None => None,
        },
        ..entry
    }
}

/// An entry without the blocks that a document handed on must not carry.
pub open spec fn corrected_entry(entry: EntryView) -> EntryView {
    EntryView { directory_block: false, media_rights: false, ..entry }
}

/// A document with its known flaws mended: without the podcast-directory
/// metadata block, in the channel and in every entry; without media rights
/// elements; and with every link that points to the document itself
/// pointing to `url`.
pub open spec fn corrected(doc: DocumentView, url: Seq<char>) -> DocumentView {
    DocumentView {
        directory_block: false,
        links: corrected_links(doc.links, url),
        entries: Seq::new(doc.entries.len(), |i: int| corrected_entry(doc.entries[i])),
        ..doc
    }
}

/// Whether a link says of itself that it points to the document it is in.
pub open spec fn is_self_link(link: LinkView) -> bool {
    match link.rel {
        Some(rel) => lowercase(rel) == "self"@,
        None => false,
    }
}

/// A link as the derived document carries it: one that points to the
/// document itself points to `url`.
pub open spec fn corrected_link(link: LinkView, url: Seq<char>) -> LinkView {
    if is_self_link(link) {
        LinkView { href: Some(url), ..link }
    } else {
        link
    }
}

/// The links of the derived document.
pub open spec fn corrected_links(links: Seq<LinkView>, url: Seq<char>) -> Seq<LinkView> {
    Seq::new(links.len(), |i: int| corrected_link(links[i], url))
}

/// `text` with the line ends of one character.
pub fn unix_line_ends(text: &str) -> (r: String)
    ensures
        r@ == replaced(text@, "\r\n"@, "\n"@),
{
    proof {
        reveal_strlit("\r\n");
    }
    replace(text, "\r\n", "\n")
}

/// The title of the derived document.
pub fn make_title(title: &str) -> (r: String)
    ensures
        r@ == derived_title(title@),
{
    join(title, " - PodRacer")
}

/// The status of the feed, with its identifier.
pub fn make_status_line(paused: bool, next: Option<i64>, uuid: &str) -> (r: String)
    requires
        next.is_some() ==> is_instant(next.unwrap() as int),
    ensures
        r@ == status_line(paused, next, uuid@),
{
    let mut out: String = match next {
        None => String::from_str("PodRacer feed has caught up"),
        Some(t) => if paused {
            String::from_str("Feed paused")
        } else {
            let when: String = format_release(t);
            join("Next episode publishes ", when.as_str())
        },
    };
    out.append(" -- PodRacer UUID: ");
    out.append(uuid);
    out
}

/// The description of the derived document.
pub fn make_description(description: &str, status: &str) -> (r: String)
    ensures
        r@ == derived_description(description@, status@),
{
    let mut out: String = join(description, " -- ");
    out.append(status);
    out
}

/// The link that leads to the page on which the feed is managed.
pub fn make_management_link(uuid: &str) -> (r: String)
    ensures
        r@ == management_link(uuid@),
{
    let mut out: String = join("<a href=\"http://podracer.zachn.me/edit_feed/", uuid);
    out.append("\">");
    out.append(uuid);
    out.append("</a>");
    out
}

/// A description with the note of origin.
pub fn note_description(description: &Option<String>, original: i64, uuid: &str) -> (r: String)
    requires
        is_instant(original as int),
    ensures
        r@ == noted_description(opt_view(*description), original, uuid@),
{
    let mut out: String = match description {
        Some(d) => unix_line_ends(d.as_str()),
        None => unix_line_ends(""),
    };
    let day: String = format_day(original);
    let link: String = make_management_link(uuid);
    out.append("\n\nOriginally published on ");
    out.append(day.as_str());
    out.append("\n\nFeed UUID: ");
    out.append(link.as_str());
    out
}

/// A content with the note of origin.
pub fn note_content(content: &str, original: i64, uuid: &str) -> (r: String)
    requires
        is_instant(original as int),
    ensures
        r@ == noted_content(content@, original, uuid@),
{
    let mut out: String = unix_line_ends(content);
    let day: String = format_day(original);
    let link: String = make_management_link(uuid);
    out.append("<br>Originally published on ");
    out.append(day.as_str());
    out.append("<br><br>Feed UUID:<br>");
    out.append(link.as_str());
    out
}

/// An entry as it is released: dated with its release instant, or with its
/// original instant where the release would come before it, and with the
/// note of origin.
pub fn rewrite_entry(entry: &Entry, original: i64, release: i64, uuid: &str) -> (r: Entry)
    requires
        is_instant(original as int),
        is_instant(release as int),
    ensures
        r@ == rewritten_entry(entry@, original, release, uuid@),
{
    let shown: i64 = if release < original {
        original
    } else {
        release
    };
    Entry {
        title: copy_opt(&entry.title),
        pub_date: Some(format_rfc2822(shown)),
        description: Some(note_description(&entry.description, original, uuid)),
        content: match &entry.content {
            Some(c) => Some(note_content(c.as_str(), original, uuid)),
            None => None,
        },
        media: copy_opt(&entry.media),
        directory_block: entry.directory_block,
        media_rights: entry.media_rights,
        position: entry.position,
    }
}

/// Whether a link says of itself that it points to the document it is in.
pub fn link_is_self(link: &Link) -> (r: bool)
    ensures
        r == is_self_link(link@),
{
    match &link.rel {
        Some(rel) => {
            let lower: String = to_lowercase(rel.as_str());
            let wanted: String = String::from_str("self");
            lower == wanted
        },
        None => false,
    }
}

/// The links of the derived document: every link that points to the
/// document itself points to `url`, the others stay.
pub fn correct_links(links: &Vec<Link>, url: &str) -> (r: Vec<Link>)
    ensures
        link_views(r@) == corrected_links(link_views(links@), url@),
{
    let mut out: Vec<Link> = Vec::new();
    let mut i: usize = 0;
    while i < links.len()
        invariant
            i <= links.len(),
            out.len() == i,
            forall|k: int| 0 <= k < i ==> (#[trigger] out[k])@ == corrected_link(links[k]@, url@),
        decreases links.len() - i,
    {
        let link: &Link = &links[i];
        let href: Option<String> = if link_is_self(link) {
            Some(String::from_str(url))
        } else {
            copy_opt(&link.href)
        };
        out.push(Link { rel: copy_opt(&link.rel), href });
        i = i + 1;
    }
    assert(link_views(out@) =~= corrected_links(link_views(links@), url@));
    out
}

/// Mends the known flaws of a document: takes out the podcast-directory
/// metadata block of the channel and of every entry and the media rights
/// elements, and lets every link that points to the document itself point
/// to `url`.
pub fn correct_known_rss_issues(doc: &mut Document, url: &str)
    ensures
        final(doc)@ == corrected(old(doc)@, url@),
{
    let links: Vec<Link> = correct_links(&doc.links, url);
    let mut entries: Vec<Entry> = Vec::new();
    let mut i: usize = 0;
    while i < doc.entries.len()
        invariant
            i <= doc.entries.len(),
            entries.len() == i,
            *doc == *old(doc),
            forall|k: int| 0 <= k < i ==> (#[trigger] entries[k])@ == corrected_entry(doc.entries[k]@),
        decreases doc.entries.len() - i,
    {
        let entry: &Entry = &doc.entries[i];
        entries.push(
            Entry {
                title: copy_opt(&entry.title),
                pub_date: copy_opt(&entry.pub_date),
                description: copy_opt(&entry.description),
                content: copy_opt(&entry.content),
                media: copy_opt(&entry.media),
                directory_block: false,
                media_rights: false,
                position: entry.position,
            },
        );
        i = i + 1;
    }
    assert(entry_views(entries@) =~= corrected(old(doc)@, url@).entries);
    doc.directory_block = false;
    doc.links = links;
    doc.entries = entries;
}

} // verus!
