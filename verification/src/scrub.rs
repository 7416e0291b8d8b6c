//! Mending a feed document before it is read or handed on: an ampersand that
//! stands before a space is escaped, and every line is ended by one line
//! feed.

use vstd::prelude::*;

verus! {

/// `&`
pub const AMPERSAND: u8 = 0x26;

/// A space.
pub const SPACE: u8 = 0x20;

/// A line feed.
pub const LINE_FEED: u8 = 0x0a;

/// A carriage return.
pub const CARRIAGE_RETURN: u8 = 0x0d;

/// What an unescaped ampersand before a space is replaced with: `&amp; `.
pub open spec fn escaped() -> Seq<u8> {
    seq![0x26u8, 0x61u8, 0x6du8, 0x70u8, 0x3bu8, 0x20u8]
}

/// Whether an ampersand followed by a space starts at `i`.
pub open spec fn flaw_at(bytes: Seq<u8>, i: int) -> bool {
    0 <= i && i + 1 < bytes.len() && bytes[i] == AMPERSAND && bytes[i + 1] == SPACE
}

/// Whether a line ends at `i` with a carriage return and a line feed.
pub open spec fn long_end_at(bytes: Seq<u8>, i: int) -> bool {
    0 <= i && i + 1 < bytes.len() && bytes[i] == CARRIAGE_RETURN && bytes[i + 1] == LINE_FEED
}

/// The rest of a content, mended. `open` says whether a line has begun that
/// is not ended yet. A line feed ends a line, with the carriage return
/// before it where there is one; both give one line feed. A line that the
/// content leaves open is ended. Within a line an ampersand before a space
/// is escaped and every other byte kept.
pub open spec fn mended(bytes: Seq<u8>, open: bool) -> Seq<u8>
    decreases bytes.len(),
{
    if bytes.len() == 0 {
        if open {
            seq![LINE_FEED]
        } else {
            Seq::empty()
        }
    } else if bytes[0] == LINE_FEED {
        seq![LINE_FEED] + mended(bytes.skip(1), false)
    } else if long_end_at(bytes, 0) {
        seq![LINE_FEED] + mended(bytes.skip(2), false)
    } else if flaw_at(bytes, 0) {
        escaped() + mended(bytes.skip(2), true)
    } else {
        seq![bytes[0]] + mended(bytes.skip(1), true)
    }
}

/// The content with every ampersand that stands before a space escaped and
/// every line ended by one line feed.
pub open spec fn scrubbed(bytes: Seq<u8>) -> Seq<u8> {
    mended(bytes, false)
}

/// Whether the content has no ampersand before a space.
pub open spec fn is_clean(bytes: Seq<u8>) -> bool {
    forall|i: int| !flaw_at(bytes, i)
}

/// Whether no line of the content ends with a carriage return and a line
/// feed, and none is left open.
pub open spec fn ends_lines(bytes: Seq<u8>) -> bool {
    &&& forall|i: int| !long_end_at(bytes, i)
    &&& bytes.len() > 0 ==> bytes.last() == LINE_FEED
}

/// What mended content starts with: the first byte of the content, or the
/// line feed that ends its first line.
proof fn lemma_mended_first(bytes: Seq<u8>, open: bool)
    ensures
        bytes.len() > 0 || open ==> mended(bytes, open).len() > 0,
        bytes.len() > 0 ==> mended(bytes, open)[0] == bytes[0] || mended(bytes, open)[0] == LINE_FEED,
        bytes.len() == 0 && open ==> mended(bytes, open)[0] == LINE_FEED,
{
}

/// Mended content has no ampersand before a space.
pub proof fn lemma_mended_is_clean(bytes: Seq<u8>, open: bool)
    ensures
        is_clean(mended(bytes, open)),
    decreases bytes.len(),
{
    if bytes.len() == 0 {
    } else if bytes[0] == LINE_FEED || long_end_at(bytes, 0) {
        let tail: Seq<u8> = if bytes[0] == LINE_FEED {
            bytes.skip(1)
        } else {
            bytes.skip(2)
        };
        let rest: Seq<u8> = mended(tail, false);
        lemma_mended_is_clean(tail, false);
        let out: Seq<u8> = seq![LINE_FEED] + rest;
        assert forall|i: int| !flaw_at(out, i) by {
            if 1 <= i && i + 1 < out.len() {
                assert(out[i] == rest[i - 1] && out[i + 1] == rest[i]);
                assert(!flaw_at(rest, i - 1));
            }
        }
    } else if flaw_at(bytes, 0) {
        let rest: Seq<u8> = mended(bytes.skip(2), true);
        lemma_mended_is_clean(bytes.skip(2), true);
        let out: Seq<u8> = escaped() + rest;
        assert forall|i: int| !flaw_at(out, i) by {
            if 6 <= i && i + 1 < out.len() {
                assert(out[i] == rest[i - 6] && out[i + 1] == rest[i - 5]);
                assert(!flaw_at(rest, i - 6));
            }
        }
    } else {
        let tail: Seq<u8> = bytes.skip(1);
        let rest: Seq<u8> = mended(tail, true);
        lemma_mended_is_clean(tail, true);
        lemma_mended_first(tail, true);
        let out: Seq<u8> = seq![bytes[0]] + rest;
        assert forall|i: int| !flaw_at(out, i) by {
            if 0 <= i && i + 1 < out.len() {
                if i >= 1 {
                    assert(out[i] == rest[i - 1] && out[i + 1] == rest[i]);
                    assert(!flaw_at(rest, i - 1));
                } else {
                    assert(out[1] == rest[0]);
                    if tail.len() > 0 {
                        assert(tail[0] == bytes[1]);
                    }
                }
            }
        }
    }
}

/// Mended content leaves no line open: it ends with a line feed, and is
/// empty only where there was no content and no line had begun.
pub proof fn lemma_mended_ends_with_line_feed(bytes: Seq<u8>, open: bool)
    ensures
        bytes.len() > 0 || open ==> mended(bytes, open).len() > 0 && mended(bytes, open).last()
            == LINE_FEED,
        bytes.len() == 0 && !open ==> mended(bytes, open).len() == 0,
    decreases bytes.len(),
{
    if bytes.len() == 0 {
    } else if bytes[0] == LINE_FEED {
        lemma_mended_ends_with_line_feed(bytes.skip(1), false);
    } else if long_end_at(bytes, 0) {
        lemma_mended_ends_with_line_feed(bytes.skip(2), false);
    } else if flaw_at(bytes, 0) {
        lemma_mended_ends_with_line_feed(bytes.skip(2), true);
    } else {
        lemma_mended_ends_with_line_feed(bytes.skip(1), true);
    }
}

/// Content that needs no mending is left as it is: content without an
/// ampersand before a space, whose lines are all ended by one line feed.
pub proof fn lemma_mended_is_kept(bytes: Seq<u8>, open: bool)
    requires
        is_clean(bytes),
        ends_lines(bytes),
        bytes.len() == 0 ==> !open,
    ensures
        mended(bytes, open) == bytes,
    decreases bytes.len(),
{
    if bytes.len() > 0 {
        assert(!flaw_at(bytes, 0));
        assert(!long_end_at(bytes, 0));
        let rest: Seq<u8> = bytes.skip(1);
        assert forall|i: int| !flaw_at(rest, i) by {
            assert(!flaw_at(bytes, i + 1));
        }
        assert forall|i: int| !long_end_at(rest, i) by {
            assert(!long_end_at(bytes, i + 1));
        }
        if rest.len() > 0 {
            assert(rest.last() == bytes.last());
        } else {
            assert(bytes[0] == bytes.last());
        }
        lemma_mended_is_kept(rest, bytes[0] != LINE_FEED);
        assert(seq![bytes[0]] + rest =~= bytes);
    }
}

/// Mending what is mended changes nothing, where the content has no line
/// that ends with two carriage returns and a line feed.
pub proof fn lemma_scrub_idempotent(bytes: Seq<u8>)
    requires
        forall|i: int| !long_end_at(scrubbed(bytes), i),
    ensures
        scrubbed(scrubbed(bytes)) == scrubbed(bytes),
{
    lemma_mended_is_clean(bytes, false);
    lemma_mended_ends_with_line_feed(bytes, false);
    lemma_mended_is_kept(scrubbed(bytes), false);
}

/// The content to write to a file in place of `content`: every ampersand
/// that stands before a space is escaped and every line is ended by one line
/// feed; everything else is kept.
pub fn scrub_xml_content_to_file(content: &[u8]) -> (r: Vec<u8>)
    ensures
        r@ == scrubbed(content@),
{
    let mut out: Vec<u8> = Vec::new();
    let mut open: bool = false;
    let mut i: usize = 0;
    assert(content@.skip(0) =~= content@);
    while i < content.len()
        invariant
            i <= content.len(),
            out@ + mended(content@.skip(i as int), open) == scrubbed(content@),
        decreases content.len() - i,
    {
        let ghost rest: Seq<u8> = content@.skip(i as int);
        let ghost before: Seq<u8> = out@;
        let byte: u8 = content[i];
        let followed: bool = i + 1 < content.len();
        assert(rest[0] == byte);
        assert(followed ==> rest[1] == content[i + 1]);
        if byte == LINE_FEED {
            out.push(LINE_FEED);
            proof {
                assert(rest.skip(1) =~= content@.skip(i + 1));
                assert(out@ =~= before + seq![LINE_FEED]);
                assert(out@ + mended(content@.skip(i + 1), false) =~= before + mended(rest, open));
            }
            open = false;
            i = i + 1;
        } else if byte == CARRIAGE_RETURN && followed && content[i + 1] == LINE_FEED {
            out.push(LINE_FEED);
            proof {
                assert(long_end_at(rest, 0));
                assert(rest.skip(2) =~= content@.skip(i + 2));
                assert(out@ =~= before + seq![LINE_FEED]);
                assert(out@ + mended(content@.skip(i + 2), false) =~= before + mended(rest, open));
            }
            open = false;
            i = i + 2;
        } else if byte == AMPERSAND && followed && content[i + 1] == SPACE {
            out.push(0x26u8);
            out.push(0x61u8);
            out.push(0x6du8);
            out.push(0x70u8);
            out.push(0x3bu8);
            out.push(0x20u8);
            proof {
                assert(!long_end_at(rest, 0));
                assert(flaw_at(rest, 0));
                assert(rest.skip(2) =~= content@.skip(i + 2));
                assert(out@ =~= before + escaped());
                assert(out@ + mended(content@.skip(i + 2), true) =~= before + mended(rest, open));
            }
            open = true;
            i = i + 2;
        } else {
            out.push(byte);
            proof {
                assert(!long_end_at(rest, 0));
                assert(!flaw_at(rest, 0));
                assert(rest.skip(1) =~= content@.skip(i + 1));
                assert(out@ =~= before + seq![rest[0]]);
                assert(out@ + mended(content@.skip(i + 1), true) =~= before + mended(rest, open));
            }
            open = true;
            i = i + 1;
        }
    }
    if open {
        proof {
            assert(mended(content@.skip(i as int), true) =~= seq![LINE_FEED]);
        }
        out.push(LINE_FEED);
    } else {
        assert(mended(content@.skip(i as int), false) =~= Seq::<u8>::empty());
        assert(out@ + Seq::<u8>::empty() =~= out@);
    }
    out
}

} // verus!
