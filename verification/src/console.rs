//! The console output sink: text becomes 16-bit code units, handed to
//! firmware in chunks of a fixed size.

use vstd::prelude::*;
use vstd::std_specs::iter::IteratorSpec;
use crate::registry::TableRegistry;
use crate::status::Fatal;

verus! {

/// The number of code units in a full chunk.
pub const CHUNK_UNITS: usize = 32;

/// The console output to ask of firmware: one output call for each chunk, in
/// order.
#[derive(Debug)]
pub struct ConsoleRequest {
    /// The address of the system table to call through.
    pub table: usize,
    /// The code units of each call.
    pub chunks: Vec<Vec<u16>>,
}

/// The console reset to ask of firmware.
#[derive(Clone, Copy, Debug, PartialEq, Eq, Structural)]
pub struct ResetRequest {
    /// The address of the system table to call through.
    pub table: usize,
    /// Whether firmware is to verify the device at length.
    pub extended_verification: bool,
}

/// The UTF-16 code units of one character: the character itself below
/// U+10000, a high and a low surrogate from there on.
pub open spec fn utf16_of_char(c: char) -> Seq<u16> {
    let v = c as u32 as int;
    if v < 0x1_0000 {
        seq![v as u16]
    } else {
        seq![(0xD800 + (v - 0x1_0000) / 0x400) as u16, (0xDC00 + (v - 0x1_0000) % 0x400) as u16]
    }
}

/// The UTF-16 code units of a text: those of its characters, in order.
pub open spec fn utf16_of(text: Seq<char>) -> Seq<u16>
    decreases text.len(),
{
    if text.len() == 0 {
        Seq::empty()
    } else {
        utf16_of(text.drop_last()) + utf16_of_char(text.last())
    }
}

/// The number of chunks for a number of code units: as many full chunks as
/// needed, the last one possibly shorter, and one empty chunk for no units.
pub open spec fn chunk_count(units: nat) -> nat {
    if units == 0 {
        1
    } else {
        ((units + CHUNK_UNITS - 1) / CHUNK_UNITS as int) as nat
    }
}

/// The code units of chunk `k`.
pub open spec fn chunk_at(units: Seq<u16>, k: int) -> Seq<u16> {
    let end = if (k + 1) * CHUNK_UNITS <= units.len() {
        (k + 1) * CHUNK_UNITS
    } else {
        units.len() as int
    };
    units.subrange(k * CHUNK_UNITS, end)
}

/// Whether `chunks` are the chunks of `units`, in order.
pub open spec fn chunks_of(chunks: Seq<Vec<u16>>, units: Seq<u16>) -> bool {
    &&& chunks.len() == chunk_count(units.len())
    &&& forall|k: int| 0 <= k < chunks.len() ==> (#[trigger] chunks[k])@ == chunk_at(units, k)
}

/// Appends the UTF-16 code units of one character.
fn push_utf16(units: &mut Vec<u16>, c: char)
    ensures
        final(units)@ == old(units)@ + utf16_of_char(c),
{
    let v: u32 = c as u32;
    if v < 0x1_0000 {
        units.push(v as u16);
        assert(units@ =~= old(units)@ + utf16_of_char(c));
    } else {
        let w: u32 = v - 0x1_0000;
        units.push((0xD800 + w / 0x400) as u16);
        units.push((0xDC00 + w % 0x400) as u16);
        assert(units@ =~= old(units)@ + utf16_of_char(c));
    }
}

/// The UTF-16 code units of a text.
pub fn encode_utf16(text: &str) -> (units: Vec<u16>)
    ensures
        units@ == utf16_of(text@),
{
    broadcast use vstd::string::group_string_axioms;

    let mut units: Vec<u16> = Vec::new();
    let mut chars = text.chars();
    let ghost mut done: Seq<char> = Seq::empty();
    loop
        invariant
            chars.obeys_prophetic_iter_laws(),
            done + chars.remaining() == text@,
            units@ == utf16_of(done),
            chars.decrease() is Some,
        ensures
            units@ == utf16_of(text@),
        decreases chars.decrease()->0,
    {
        let ghost rest = chars.remaining();
        match chars.next() {
            Some(c) => {
                push_utf16(&mut units, c);
                proof {
                    assert(done.push(c).drop_last() =~= done);
                    assert(done.push(c) + rest.drop_first() =~= done + rest);
                    done = done.push(c);
                }
            },
            None => {
                assert(done =~= text@);
                break ;
            },
        }
    }
    units
}

/// Cuts code units into the chunks in which firmware is handed them: each
/// chunk is full but the last, which holds the rest.
pub fn chunk_units(units: &[u16]) -> (chunks: Vec<Vec<u16>>)
    ensures
        chunks_of(chunks@, units@),
{
    let mut chunks: Vec<Vec<u16>> = Vec::new();
    let mut chunk: Vec<u16> = Vec::new();
    let mut i: usize = 0;
    while i < units.len()
        invariant
            i <= units@.len(),
            CHUNK_UNITS * chunks@.len() <= i <= CHUNK_UNITS * chunks@.len() + CHUNK_UNITS,
            i > 0 ==> i > CHUNK_UNITS * chunks@.len(),
            chunk@ == units@.subrange(CHUNK_UNITS * chunks@.len(), i as int),
            forall|k: int|
                0 <= k < chunks@.len() ==> (#[trigger] chunks@[k])@ == chunk_at(units@, k),
        decreases units@.len() - i,
    {
        if chunk.len() == CHUNK_UNITS {
            chunks.push(chunk);
            chunk = Vec::new();
        }
        chunk.push(units[i]);
        i += 1;
        assert(chunk@ =~= units@.subrange(CHUNK_UNITS * chunks@.len(), i as int));
    }
    chunks.push(chunk);
    chunks
}

/// The console output for a text: its UTF-16 code units in chunks, to be
/// written through the captured system table. Without a captured table the
/// result is that fatal condition.
pub fn output_string(registry: &TableRegistry, string: &str) -> (result: Result<
    ConsoleRequest,
    Fatal,
>)
    ensures
        match result {
            Ok(request) => {
                &&& registry.current_spec() == Ok::<usize, Fatal>(request.table)
                &&& chunks_of(request.chunks@, utf16_of(string@))
            },
            Err(e) => registry.current_spec() == Err::<usize, Fatal>(e),
        },
{
    match registry.current() {
        Ok(table) => {
            let units = encode_utf16(string);
            let chunks = chunk_units(units.as_slice());
            Ok(ConsoleRequest { table, chunks })
        },
        Err(e) => Err(e),
    }
}

/// The console reset that clears the screen, to be made through the captured
/// system table. Without a captured table the result is that fatal condition.
pub fn clear_screen(registry: &TableRegistry) -> (result: Result<ResetRequest, Fatal>)
    ensures
        result == match registry.current_spec() {
            Ok(table) => Ok(ResetRequest { table, extended_verification: true }),
            Err(e) => Err(e),
        },
{
    match registry.current() {
        Ok(table) => Ok(ResetRequest { table, extended_verification: true }),
        Err(e) => Err(e),
    }
}

/// Every chunk but the last is full, the last holds what is left, and each
/// chunk starts where the one before it ended.
pub proof fn chunks_partition_units(units: Seq<u16>, k: int)
    requires
        0 <= k < chunk_count(units.len()),
    ensures
        k + 1 < chunk_count(units.len()) ==> chunk_at(units, k) == units.subrange(
            k * CHUNK_UNITS,
            (k + 1) * CHUNK_UNITS,
        ) && chunk_at(units, k).len() == CHUNK_UNITS,
        k + 1 == chunk_count(units.len()) ==> chunk_at(units, k) == units.subrange(
            k * CHUNK_UNITS,
            units.len() as int,
        ) && chunk_at(units, k).len() == units.len() - k * CHUNK_UNITS,
        units.len() > 0 ==> 1 <= chunk_at(units, k).len() <= CHUNK_UNITS,
{
}

/// A text of more code units than one chunk holds, and of no more than two
/// hold, goes out in exactly two chunks: a full one, then the rest.
pub proof fn two_chunks_for_one_overflow(units: Seq<u16>)
    requires
        CHUNK_UNITS < units.len() <= 2 * CHUNK_UNITS,
    ensures
        chunk_count(units.len()) == 2,
        chunk_at(units, 0) == units.subrange(0, CHUNK_UNITS as int),
        chunk_at(units, 1) == units.subrange(CHUNK_UNITS as int, units.len() as int),
        chunk_at(units, 1).len() == units.len() - CHUNK_UNITS,
{
}

/// No code unit is lost or moved: the unit at index `i` of the text is the
/// unit at index `i % CHUNK_UNITS` of chunk `i / CHUNK_UNITS`.
pub proof fn each_unit_is_in_its_chunk(units: Seq<u16>, i: int)
    requires
        0 <= i < units.len(),
    ensures
        0 <= i / (CHUNK_UNITS as int) < chunk_count(units.len()),
        0 <= i % (CHUNK_UNITS as int) < chunk_at(units, i / (CHUNK_UNITS as int)).len(),
        chunk_at(units, i / (CHUNK_UNITS as int))[i % (CHUNK_UNITS as int)] == units[i],
{
}

} // verus!
