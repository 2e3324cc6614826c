//! The item log: one record per line. This module frames records into the
//! text of the log and back, and rebuilds an item from its record once the
//! caller has its pixels.

use vstd::prelude::*;
use vstd::string::StringExecFns;
use crate::error::BoardError;
use crate::item::{Item, ItemImage};
use crate::reference::{classify, lemma_classify_keeps_argument, type_of};
use crate::text::{chars_of, texts};

verus! {

/// The name of the log inside the store's directory.
pub const LOG_NAME: &'static str = "store.log";

/// The name of the copy of the log that is made when a session starts.
pub const BACKUP_NAME: &'static str = "backup.log";

/// The name of the directory of cached images inside the store's directory.
pub const CACHE_NAME: &'static str = ".cache";

/// Appends `c` to `s` with `String::push`, which adds the character at the
/// end and changes nothing else.
#[verifier::external_body]
fn push_char(s: &mut String, c: char)
    ensures
        final(s)@ == old(s)@.push(c),
{
    s.push(c);
}

/// The index of the first line feed of `s`, its length where it has none.
pub open spec fn line_end(s: Seq<char>) -> nat
    decreases s.len(),
{
    if s.len() == 0 || s[0] == '\n' {
        0
    } else {
        1 + line_end(s.drop_first())
    }
}

/// The first line of `s`, without the line feed that ends it and without a
/// carriage return just before that line feed.
pub open spec fn first_line(s: Seq<char>) -> Seq<char> {
    let k = line_end(s) as int;
    if 0 < k < s.len() && s[k - 1] == '\r' {
        s.take(k - 1)
    } else {
        s.take(k)
    }
}

/// What follows the first line of `s` and the line feed that ends it.
pub open spec fn after_first_line(s: Seq<char>) -> Seq<char> {
    let k = line_end(s) as int;
    if k < s.len() {
        s.skip(k + 1)
    } else {
        Seq::empty()
    }
}

/// The lines of a text. A line ends at a line feed, or at a carriage return
/// followed by one; the last line needs no ending, and a text that ends with
/// a line ending has no empty line after it.
pub open spec fn lines_of(s: Seq<char>) -> Seq<Seq<char>>
    decreases s.len(),
{
    if s.len() == 0 {
        Seq::empty()
    } else {
        seq![first_line(s)] + lines_of(after_first_line(s))
    }
}

/// The text of a log that holds `records`: each record, in order, followed
/// by a line feed.
pub open spec fn written(records: Seq<Seq<char>>) -> Seq<char>
    decreases records.len(),
{
    if records.len() == 0 {
        Seq::empty()
    } else {
        written(records.drop_last()) + records.last().push('\n')
    }
}

/// A record fits on one line: it holds no line feed and does not end with a
/// carriage return.
pub open spec fn single_line(record: Seq<char>) -> bool {
    &&& !record.contains('\n')
    &&& record.len() > 0 ==> record.last() != '\r'
}

/// The item that a line of the log gives, where `parsed` is the record that
/// the line holds (`None` where it holds none) and `pixels` the outcome of
/// loading the pixels of an image.
pub open spec fn is_read(
    parsed: Option<Item>,
    pixels: Result<u64, BoardError>,
    r: Result<Item, BoardError>,
) -> bool {
    match parsed {
        None => r == Err::<Item, BoardError>(BoardError::Deserialize),
        Some(Item::Text(t)) => r == Ok::<Item, BoardError>(Item::Text(t)),
        Some(Item::Image(i)) => match pixels {
            Err(e) => r == Err::<Item, BoardError>(e),
            Ok(handle) => {
                &&& r matches Ok(Item::Image(n))
                &&& n.handle == Some(handle)
                &&& n.position == i.position
                &&& n.scale == i.scale
                &&& n.rotation == i.rotation
                &&& n.kind@ == type_of(i.kind@.argument())
            },
        },
    }
}

/// The line that adding `record` appends to the log.
pub fn record_line(record: &str) -> (line: String)
    ensures
        line@ == record@.push('\n'),
{
    let mut line = record.to_owned();
    push_char(&mut line, '\n');
    line
}

/// The text of a log that holds `records`.
pub fn log_text(records: &Vec<String>) -> (text: String)
    ensures
        text@ == written(texts(records@)),
{
    let mut text = String::new();
    let mut i: usize = 0;
    while i < records.len()
        invariant
            i <= records.len(),
            text@ == written(texts(records@).take(i as int)),
        decreases records.len() - i,
    {
        proof {
            let all = texts(records@);
            assert(all.take(i + 1).drop_last() =~= all.take(i as int));
            assert(all.take(i + 1).last() == records@[i as int]@);
        }
        text.append(records[i].as_str());
        push_char(&mut text, '\n');
        i += 1;
    }
    proof {
        assert(texts(records@).take(i as int) =~= texts(records@));
    }
    text
}

/// The lines of a text, in order.
pub fn split_lines(contents: &str) -> (lines: Vec<String>)
    ensures
        texts(lines@) == lines_of(contents@),
{
    let chars = chars_of(contents);
    let ghost s = chars@;
    let mut lines: Vec<String> = Vec::new();
    let mut start: usize = 0;
    proof {
        assert(s.skip(0) =~= s);
        assert(texts(lines@) =~= Seq::empty());
    }
    while start < chars.len()
        invariant
            start <= chars.len(),
            s == chars@,
            s == contents@,
            texts(lines@) + lines_of(s.skip(start as int)) == lines_of(s),
        decreases chars.len() - start,
    {
        let ghost rest = s.skip(start as int);
        let mut end: usize = start;
        while end < chars.len() && chars[end] != '\n'
            invariant
                start <= end <= chars.len(),
                s == chars@,
                forall|j: int| start <= j < end ==> s[j] != '\n',
            decreases chars.len() - end,
        {
            end += 1;
        }
        proof {
            lemma_line_end(rest, end - start);
        }
        let terminated = end < chars.len();
        let stop: usize = if terminated && end > start && chars[end - 1] == '\r' {
            (end - 1) as usize
        } else {
            end
        };
        let mut line = String::new();
        let mut j: usize = start;
        while j < stop
            invariant
                start <= j <= stop <= chars.len(),
                s == chars@,
                line@ == s.subrange(start as int, j as int),
            decreases stop - j,
        {
            push_char(&mut line, chars[j]);
            proof {
                assert(s.subrange(start as int, j as int).push(s[j as int]) =~= s.subrange(
                    start as int,
                    j + 1,
                ));
            }
            j += 1;
        }
        let ghost before = lines@;
        lines.push(line);
        let next: usize = if terminated {
            end + 1
        } else {
            end
        };
        proof {
            assert(line@ =~= first_line(rest));
            assert(after_first_line(rest) =~= s.skip(next as int));
            assert(texts(lines@) =~= texts(before).push(line@));
            assert(texts(lines@) + lines_of(s.skip(next as int)) =~= texts(before) + lines_of(
                rest,
            ));
        }
        start = next;
    }
    proof {
        assert(lines_of(s.skip(start as int)) =~= Seq::empty());
        assert(texts(lines@) + Seq::<Seq<char>>::empty() =~= texts(lines@));
    }
    lines
}

/// The item that a line of the log gives. A line that holds no record is a
/// `Deserialize` failure. A text is taken as it is. An image is taken once
/// its pixels are there: it is made anew from its reference and then given
/// the position, scale and rotation of its record; the failure to load its
/// pixels is handed on. `pixels` is read for an image only.
pub fn read_line(parsed: Option<Item>, pixels: Result<u64, BoardError>) -> (r: Result<
    Item,
    BoardError,
>)
    ensures
        is_read(parsed, pixels, r),
{
    match parsed {
        None => Err(BoardError::Deserialize),
        Some(Item::Text(t)) => Ok(Item::Text(t)),
        Some(Item::Image(i)) => match pixels {
            Err(e) => Err(e),
            Ok(handle) => Ok(
                Item::Image(ItemImage::new(handle, i.kind.argument())).with_position(
                    i.position,
                ).with_scale(i.scale).with_rotation(i.rotation),
            ),
        },
    }
}

/// An index before which `s` holds no line feed, and at which it holds one or
/// ends, is where the first line of `s` ends.
proof fn lemma_line_end(s: Seq<char>, k: int)
    requires
        0 <= k <= s.len(),
        forall|j: int| 0 <= j < k ==> s[j] != '\n',
        k < s.len() ==> s[k] == '\n',
    ensures
        line_end(s) == k,
    decreases k,
{
    if k > 0 {
        lemma_line_end(s.drop_first(), k - 1);
    }
}

/// The first line of a text ends inside the text.
proof fn lemma_line_end_bound(s: Seq<char>)
    ensures
        line_end(s) <= s.len(),
        forall|j: int| 0 <= j < line_end(s) ==> s[j] != '\n',
        line_end(s) < s.len() ==> s[line_end(s) as int] == '\n',
    decreases s.len(),
{
    if s.len() == 0 || s[0] == '\n' {
    } else {
        lemma_line_end_bound(s.drop_first());
        assert forall|j: int| 0 <= j < line_end(s) implies s[j] != '\n' by {
            if j > 0 {
                assert(s[j] == s.drop_first()[j - 1]);
            }
        }
    }
}

/// The lines of a text that ends with a line feed, followed by any text, are
/// the lines of the one and then the lines of the other.
proof fn lemma_lines_concat(a: Seq<char>, b: Seq<char>)
    requires
        a.len() > 0 ==> a.last() == '\n',
    ensures
        lines_of(a + b) == lines_of(a) + lines_of(b),
    decreases a.len(),
{
    if a.len() == 0 {
        assert(a + b =~= b);
        assert(lines_of(a) + lines_of(b) =~= lines_of(b));
    } else {
        lemma_line_end_bound(a);
        let k = line_end(a) as int;
        assert(k < a.len()) by {
            if k == a.len() {
                assert(a[a.len() - 1] != '\n');
            }
        }
        let ab = a + b;
        lemma_line_end(ab, k);
        assert(first_line(ab) =~= first_line(a));
        let rest = after_first_line(a);
        assert(after_first_line(ab) =~= rest + b);
        assert(rest.len() > 0 ==> rest.last() == a.last());
        lemma_lines_concat(rest, b);
        assert(lines_of(ab) =~= lines_of(a) + lines_of(b));
    }
}

/// Reading a record back keeps what it holds: a text is the same text, and
/// an image has the position, scale and rotation of its record and, where
/// its reference is an image reference, that reference and its class. Only
/// the key of the pixels is new.
pub proof fn lemma_read_keeps_record(item: Item, handle: u64, r: Result<Item, BoardError>)
    requires
        is_read(Some(item), Ok(handle), r),
    ensures
        r matches Ok(read) && read.position() == item.position() && read.scale() == item.scale()
            && read.rotation() == item.rotation(),
        item is Text ==> r == Ok::<Item, BoardError>(item),
        item matches Item::Image(i) ==> r matches Ok(Item::Image(n)) && n.handle == Some(handle)
            && (classify(i.kind@.argument()) is Some ==> n.kind@.argument()
            == i.kind@.argument()) && (i.kind@ == type_of(i.kind@.argument()) ==> n.kind@
            == i.kind@),
{
    match item {
        Item::Image(i) => {
            lemma_classify_keeps_argument(i.kind@.argument());
        },
        Item::Text(_) => {},
    }
}

/// A record that fits on one line, written to an empty log, is read back as
/// exactly one line: the record.
pub proof fn lemma_one_record_one_line(record: Seq<char>)
    requires
        single_line(record),
    ensures
        lines_of(record.push('\n')) == seq![record],
{
    let s = record.push('\n');
    assert forall|j: int| 0 <= j < record.len() implies s[j] != '\n' by {
        assert(s[j] == record[j]);
        if record[j] == '\n' {
            assert(record.contains('\n'));
        }
    }
    lemma_line_end(s, record.len() as int);
    assert(first_line(s) =~= record);
    assert(after_first_line(s).len() == 0);
    assert(lines_of(after_first_line(s)) =~= Seq::<Seq<char>>::empty());
    assert(lines_of(s) =~= seq![record]);
}

/// Framing loses nothing: the lines of a log that holds records, each of
/// which fits on one line, are those records in order.
pub proof fn lemma_log_round_trip(records: Seq<Seq<char>>)
    requires
        forall|i: int| 0 <= i < records.len() ==> single_line(#[trigger] records[i]),
    ensures
        lines_of(written(records)) == records,
    decreases records.len(),
{
    if records.len() == 0 {
        assert(lines_of(written(records)) =~= records);
    } else {
        let front = records.drop_last();
        let last = records.last();
        lemma_log_round_trip(front);
        lemma_written_ends(front);
        lemma_lines_concat(written(front), last.push('\n'));
        lemma_one_record_one_line(last);
        assert(front + seq![last] =~= records);
    }
}

/// A log that holds records ends with a line feed.
proof fn lemma_written_ends(records: Seq<Seq<char>>)
    ensures
        written(records).len() > 0 ==> written(records).last() == '\n',
        records.len() == 0 ==> written(records).len() == 0,
    decreases records.len(),
{
}

} // verus!
