//! A feed document as the library sees it: an ordered list of entries with
//! the few channel fields that the rewriter touches. Everything else in a
//! document is carried by the caller and found again by an entry's position.

use vstd::prelude::*;
use crate::text::{copy_opt, opt_view};

verus! {

/// One item of a feed document.
#[derive(Debug)]
pub struct Entry {
    /// The title, where the item has one.
    pub title: Option<String>,
    /// The publish date, as the document spells it.
    pub pub_date: Option<String>,
    /// The description, where the item has one.
    pub description: Option<String>,
    /// The content, where the item has one.
    pub content: Option<String>,
    /// The address of the media file.
    pub media: Option<String>,
    /// Whether the item carries the podcast-directory metadata block.
    pub directory_block: bool,
    /// Whether the item carries a media rights element.
    pub media_rights: bool,
    /// The item's position in the document it was read from.
    pub position: usize,
}

/// What an `Entry` holds.
pub struct EntryView {
    pub title: Option<Seq<char>>,
    pub pub_date: Option<Seq<char>>,
    pub description: Option<Seq<char>>,
    pub content: Option<Seq<char>>,
    pub media: Option<Seq<char>>,
    pub directory_block: bool,
    pub media_rights: bool,
    pub position: nat,
}

impl View for Entry {
    type V = EntryView;

    open spec fn view(&self) -> EntryView {
        EntryView {
            title: opt_view(self.title),
            pub_date: opt_view(self.pub_date),
            description: opt_view(self.description),
            content: opt_view(self.content),
            media: opt_view(self.media),
            directory_block: self.directory_block,
            media_rights: self.media_rights,
            position: self.position as nat,
        }
    }
}

impl Entry {
    /// A copy of the entry.
    pub fn copy(&self) -> (r: Entry)
        ensures
            r@ == self@,
    {
        Entry {
            title: copy_opt(&self.title),
            pub_date: copy_opt(&self.pub_date),
            description: copy_opt(&self.description),
            content: copy_opt(&self.content),
            media: copy_opt(&self.media),
            directory_block: self.directory_block,
            media_rights: self.media_rights,
            position: self.position,
        }
    }
}

/// A link element of the channel.
#[derive(Debug)]
pub struct Link {
    /// What the link is to the document: `self`, `hub`, `next`, ...
    pub rel: Option<String>,
    /// Where the link points.
    pub href: Option<String>,
}

/// What a `Link` holds.
pub struct LinkView {
    pub rel: Option<Seq<char>>,
    pub href: Option<Seq<char>>,
}

impl View for Link {
    type V = LinkView;

    open spec fn view(&self) -> LinkView {
        LinkView { rel: opt_view(self.rel), href: opt_view(self.href) }
    }
}

impl Link {
    /// A copy of the link.
    pub fn copy(&self) -> (r: Link)
        ensures
            r@ == self@,
    {
        Link { rel: copy_opt(&self.rel), href: copy_opt(&self.href) }
    }
}

/// Copies of the links.
pub fn copy_links(links: &Vec<Link>) -> (r: Vec<Link>)
    ensures
        link_views(r@) == link_views(links@),
{
    let mut out: Vec<Link> = Vec::new();
    let mut i: usize = 0;
    while i < links.len()
        invariant
            i <= links.len(),
            out.len() == i,
            forall|k: int| 0 <= k < i ==> (#[trigger] out[k])@ == links[k]@,
        decreases links.len() - i,
    {
        out.push(links[i].copy());
        i = i + 1;
    }
    assert(link_views(out@) =~= link_views(links@));
    out
}

/// A feed document.
#[derive(Debug)]
pub struct Document {
    /// The channel's title.
    pub title: String,
    /// The channel's description.
    pub description: String,
    /// The title of the channel's image, where it has an image.
    pub image_title: Option<String>,
    /// Whether the channel carries the podcast-directory metadata block.
    pub directory_block: bool,
    /// The channel's link elements.
    pub links: Vec<Link>,
    /// The entries, in the order of the document.
    pub entries: Vec<Entry>,
}

/// What a `Document` holds.
pub struct DocumentView {
    pub title: Seq<char>,
    pub description: Seq<char>,
    pub image_title: Option<Seq<char>>,
    pub directory_block: bool,
    pub links: Seq<LinkView>,
    pub entries: Seq<EntryView>,
}

/// The views of a sequence of entries.
pub open spec fn entry_views(entries: Seq<Entry>) -> Seq<EntryView> {
    Seq::new(entries.len(), |i: int| entries[i]@)
}

/// The views of a sequence of links.
pub open spec fn link_views(links: Seq<Link>) -> Seq<LinkView> {
    Seq::new(links.len(), |i: int| links[i]@)
}

impl View for Document {
    type V = DocumentView;

    open spec fn view(&self) -> DocumentView {
        DocumentView {
            title: self.title@,
            description: self.description@,
            image_title: opt_view(self.image_title),
            directory_block: self.directory_block,
            links: link_views(self.links@),
            entries: entry_views(self.entries@),
        }
    }
}

impl Document {
    /// How many entries the document holds.
    pub fn entry_count(&self) -> (r: usize)
        ensures
            r == self@.entries.len(),
    {
        self.entries.len()
    }
}

} // verus!
