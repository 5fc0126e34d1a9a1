//! Lines as they come out of a stream, stated over texts and over the reader's calls.

use vstd::prelude::*;
use vstd::string::*;
use vstd::utf8::{
    decode_utf8, encode_utf8, encode_utf8_decode_utf8, encode_utf8_valid_utf8, valid_utf8,
};

use super::lines::{
    law_a_line_comes_out_as_it_went_in, newline, read, LineError, LineReader, LineStep,
};
use crate::seqs::{first_index, lemma_first_index};
use crate::text::utf8_error_text;

verus! {

/// A text that is sent as a line comes out as that text, whatever follows it.
pub proof fn law_a_text_comes_out_as_it_was_sent(max: nat, text: Seq<char>, rest: Seq<u8>)
    requires
        !encode_utf8(text).contains(10u8),
        encode_utf8(text).len() <= max,
    ensures
        read(Seq::empty(), max, encode_utf8(text) + seq![10u8] + rest).out.len() >= 1,
        read(Seq::empty(), max, encode_utf8(text) + seq![10u8] + rest).out[0] == Ok::<
            Seq<char>,
            super::lines::LineFault,
        >(text),
{
    law_a_line_comes_out_as_it_went_in(max, encode_utf8(text), rest);
    encode_utf8_valid_utf8(text);
    encode_utf8_decode_utf8(text);
}

/// A chunk with a newline ends the line there: what was held back and what stands before
/// the newline come out as text, if they are text and not too long, and one byte more than
/// that is used. Nothing is held back then.
pub proof fn law_a_newline_ends_the_line(
    reader: &mut LineReader,
    chunk: &[u8],
    r: (usize, LineStep),
    k: int,
)
    requires
        call_ensures(LineReader::next_line, (reader, chunk), r),
        0 <= k < chunk@.len(),
        chunk@[k] == 10,
        forall|j: int| 0 <= j < k ==> #[trigger] chunk@[j] != 10,
    ensures
        r.0 == k + 1,
        final(reader).pending().len() == 0,
        r.1 !is More,
        ({
            let line = old(reader).pending() + chunk@.take(k);
            &&& line.len() > old(reader).limit() ==> r.1 == LineStep::Failed(LineError::TooLong)
            &&& line.len() <= old(reader).limit() && valid_utf8(line) ==> (r.1 matches LineStep::Line(
                t,
            ) && t@ == decode_utf8(line))
            &&& line.len() <= old(reader).limit() && !valid_utf8(line) ==> (
            r.1 matches LineStep::Failed(LineError::NotUtf8(why)) && why@ == utf8_error_text(line))
        }),
{
    lemma_first_newline(chunk@, k);
}

proof fn lemma_first_newline(bytes: Seq<u8>, k: int)
    requires
        0 <= k <= bytes.len(),
        k < bytes.len() ==> bytes[k] == 10,
        forall|j: int| 0 <= j < k ==> #[trigger] bytes[j] != 10,
    ensures
        first_index(bytes, newline()) == k,
{
    assert forall|j: int| 0 <= j < k implies !newline()(#[trigger] bytes[j]) by {
        assert(bytes[j] != 10);
    }
    lemma_first_index(bytes, newline(), k);
}

/// A chunk without a newline is held back whole, behind what was held back before, unless
/// that makes the line too long.
pub proof fn law_an_unfinished_line_is_held_back(
    reader: &mut LineReader,
    chunk: &[u8],
    r: (usize, LineStep),
)
    requires
        call_ensures(LineReader::next_line, (reader, chunk), r),
        forall|j: int| 0 <= j < chunk@.len() ==> #[trigger] chunk@[j] != 10,
    ensures
        r.0 == chunk@.len(),
        old(reader).pending().len() + chunk@.len() <= old(reader).limit() ==> r.1 is More && final(
            reader).pending() == old(reader).pending() + chunk@,
        old(reader).pending().len() + chunk@.len() > old(reader).limit() ==> r.1
            == LineStep::Failed(LineError::TooLong) && final(reader).pending().len() == 0,
{
    lemma_first_newline(chunk@, chunk@.len() as int);
}

/// At the end of a stream what was held back is a last line, if there is anything.
pub proof fn law_the_last_line_needs_no_newline(reader: &mut LineReader, r: Option<LineStep>)
    requires
        call_ensures(LineReader::finish, (reader,), r),
    ensures
        r is None <==> old(reader).pending().len() == 0,
        old(reader).pending().len() > 0 && valid_utf8(old(reader).pending()) ==> (r matches Some(
            LineStep::Line(t),
        ) && t@ == decode_utf8(old(reader).pending())),
        final(reader).pending().len() == 0,
{
}

/// A reader starts with nothing held back, and takes lines of up to one mebibyte.
pub proof fn law_a_reader_starts_empty(reader: LineReader)
    requires
        call_ensures(LineReader::new, (), reader),
    ensures
        reader.pending().len() == 0,
        reader.limit() == 1_048_576,
{
}

/// An error in words is either that the line is too long or what is wrong with its bytes.
pub proof fn law_a_line_error_says_what_is_wrong(e: &LineError, s: &str)
    requires
        call_ensures(LineError::message, (e,), s),
    ensures
        *e is TooLong ==> s@ == "herdr event line exceeded size cap without a newline"@,
        *e matches LineError::NotUtf8(why) ==> s@ == why@,
{
}

} // verus!
