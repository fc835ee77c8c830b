//! Instance buffers: records laid out as sixteen words of four bytes each,
//! one after the other.

use vstd::prelude::*;
use crate::instance::InstanceRecord;
use crate::instance::LineGeometry;
use crate::instance::line_drawn;
use crate::instance::line_record;
use crate::instance::state_to_line;
use crate::vector::Vec4;

verus! {

/// The four bytes of a word, lowest first.
pub open spec fn word_low_first(w: u32) -> Seq<u8> {
    seq![
        (w % 256) as u8,
        ((w / 256) % 256) as u8,
        ((w / 65536) % 256) as u8,
        (w / 16777216) as u8,
    ]
}

/// The four bytes of a word, highest first.
pub open spec fn word_high_first(w: u32) -> Seq<u8> {
    seq![
        (w / 16777216) as u8,
        ((w / 65536) % 256) as u8,
        ((w / 256) % 256) as u8,
        (w % 256) as u8,
    ]
}

/// The bytes of a run of words, each word lowest byte first.
pub open spec fn words_low_first(ws: Seq<u32>) -> Seq<u8> {
    Seq::new(4 * ws.len(), |i: int| word_low_first(ws[i / 4])[i % 4])
}

/// The bytes of a run of words, each word highest byte first.
pub open spec fn words_high_first(ws: Seq<u32>) -> Seq<u8> {
    Seq::new(4 * ws.len(), |i: int| word_high_first(ws[i / 4])[i % 4])
}

/// `bytes` is what `ws` looks like in the memory of some machine: every word
/// in the byte order of that machine.
pub open spec fn native_image(ws: Seq<u32>, bytes: Seq<u8>) -> bool {
    bytes == words_low_first(ws) || bytes == words_high_first(ws)
}

impl InstanceRecord {
    /// The sixteen words of the record: position and a pad, the four colour
    /// channels, the rotation, scale and a pad.
    pub open spec fn words(self) -> Seq<u32> {
        seq![
            self.position.x.bits,
            self.position.y.bits,
            self.position.z.bits,
            0u32,
            self.texture.x.bits,
            self.texture.y.bits,
            self.texture.z.bits,
            self.texture.w.bits,
            self.rotation.x.bits,
            self.rotation.y.bits,
            self.rotation.z.bits,
            self.rotation.w.bits,
            self.scale.x.bits,
            self.scale.y.bits,
            self.scale.z.bits,
            0u32,
        ]
    }

    pub fn to_words(&self) -> (r: [u32; 16])
        ensures
            r@ == self.words(),
    {
        let r: [u32; 16] = [
            self.position.x.bits,
            self.position.y.bits,
            self.position.z.bits,
            0u32,
            self.texture.x.bits,
            self.texture.y.bits,
            self.texture.z.bits,
            self.texture.w.bits,
            self.rotation.x.bits,
            self.rotation.y.bits,
            self.rotation.z.bits,
            self.rotation.w.bits,
            self.scale.x.bits,
            self.scale.y.bits,
            self.scale.z.bits,
            0u32,
        ];
        assert(r@ =~= self.words());
        r
    }
}

/// Calls `bytemuck::cast_slice` on the sixteen words of a record and copies
/// the bytes that it hands out. The cast reads the words as they lie in
/// memory, so the result is the image of the words in the byte order of the
/// machine: 64 bytes, four for each word. It cannot fail: a byte needs no
/// alignment, and every run of words is a whole number of bytes.
#[verifier::external_body]
fn cast_words(words: &[u32; 16]) -> (r: Vec<u8>)
    ensures
        native_image(words@, r@),
{
    bytemuck::cast_slice::<u32, u8>(words).to_vec()
}

/// `after` is `before` with the 64 bytes of `rec` behind it.
pub open spec fn record_appended(before: Seq<u8>, after: Seq<u8>, rec: InstanceRecord) -> bool {
    &&& after.len() == before.len() + 64
    &&& after.subrange(0, before.len() as int) == before
    &&& native_image(rec.words(), after.subrange(before.len() as int, after.len() as int))
}

/// `bytes` holds exactly the records `recs`, in order.
pub open spec fn holds_records(bytes: Seq<u8>, recs: Seq<InstanceRecord>) -> bool {
    &&& bytes.len() == 64 * recs.len()
    &&& forall|i: int|
        0 <= i < recs.len() ==> native_image(
            (#[trigger] recs[i]).words(),
            bytes.subrange(64 * i, 64 * i + 64),
        )
}

/// Appends the 64 bytes of a record to a buffer.
pub fn append_record(dest: &mut Vec<u8>, rec: &InstanceRecord)
    ensures
        record_appended(old(dest)@, final(dest)@, *rec),
{
    let words = rec.to_words();
    let mut bytes = cast_words(&words);
    let ghost image = bytes@;
    proof {
        assert(words_low_first(words@).len() == 64);
        assert(words_high_first(words@).len() == 64);
    }
    dest.append(&mut bytes);
    proof {
        assert(dest@.subrange(0, old(dest)@.len() as int) =~= old(dest)@);
        assert(dest@.subrange(old(dest)@.len() as int, dest@.len() as int) =~= image);
    }
}

/// Appends a conductor to a buffer, unless one of its end points is on the
/// ground or its direction has no length: then the buffer stays as it is.
/// Tells whether it appended.
pub fn append_line(dest: &mut Vec<u8>, g: &LineGeometry, texture: Vec4) -> (appended: bool)
    ensures
        appended == line_drawn(*g),
        appended ==> record_appended(old(dest)@, final(dest)@, line_record(*g, texture)),
        !appended ==> final(dest)@ == old(dest)@,
{
    match state_to_line(g, texture) {
        Some(rec) => {
            append_record(dest, &rec);
            true
        },
        None => false,
    }
}

/// A buffer that holds some records holds one more after a record was
/// appended, and the earlier ones stay where they were.
pub proof fn lemma_append_extends(
    before: Seq<u8>,
    after: Seq<u8>,
    recs: Seq<InstanceRecord>,
    rec: InstanceRecord,
)
    requires
        holds_records(before, recs),
        record_appended(before, after, rec),
    ensures
        holds_records(after, recs.push(rec)),
{
    let all = recs.push(rec);
    assert forall|i: int| 0 <= i < all.len() implies native_image(
        (#[trigger] all[i]).words(),
        after.subrange(64 * i, 64 * i + 64),
    ) by {
        if i < recs.len() {
            assert(after.subrange(64 * i, 64 * i + 64) =~= after.subrange(
                0,
                before.len() as int,
            ).subrange(64 * i, 64 * i + 64));
            assert(recs[i] == all[i]);
        } else {
            assert(after.subrange(64 * i, 64 * i + 64) =~= after.subrange(
                before.len() as int,
                after.len() as int,
            ));
        }
    }
}

/// `after` is `before` with the records `recs` behind it, in order.
pub open spec fn records_appended(before: Seq<u8>, after: Seq<u8>, recs: Seq<InstanceRecord>) -> bool {
    &&& after.len() == before.len() + 64 * recs.len()
    &&& after.subrange(0, before.len() as int) == before
    &&& holds_records(after.subrange(before.len() as int, after.len() as int), recs)
}

/// Appending one more record to a buffer that had some appended gives a
/// buffer that has all of them appended.
pub proof fn lemma_appended_extends(
    before: Seq<u8>,
    middle: Seq<u8>,
    after: Seq<u8>,
    recs: Seq<InstanceRecord>,
    rec: InstanceRecord,
)
    requires
        records_appended(before, middle, recs),
        record_appended(middle, after, rec),
    ensures
        records_appended(before, after, recs.push(rec)),
{
    let b = before.len() as int;
    assert(after.subrange(0, b) =~= after.subrange(0, middle.len() as int).subrange(0, b));
    let tail_mid = middle.subrange(b, middle.len() as int);
    let tail = after.subrange(b, after.len() as int);
    assert(tail.subrange(0, tail_mid.len() as int) =~= tail_mid);
    assert(tail.subrange(tail_mid.len() as int, tail.len() as int) =~= after.subrange(
        middle.len() as int,
        after.len() as int,
    ));
    lemma_append_extends(tail_mid, tail, recs, rec);
}

/// Nothing appended leaves the buffer as it is.
pub proof fn lemma_appended_nothing(before: Seq<u8>)
    ensures
        records_appended(before, before, Seq::<InstanceRecord>::empty()),
{
    assert(before.subrange(0, before.len() as int) =~= before);
}

/// Appends the records `recs` to a buffer, in order.
pub fn append_records(dest: &mut Vec<u8>, recs: &Vec<InstanceRecord>)
    ensures
        records_appended(old(dest)@, final(dest)@, recs@),
{
    let ghost before = dest@;
    let mut i: usize = 0;
    proof {
        lemma_appended_nothing(before);
        assert(recs@.subrange(0, 0) =~= Seq::<InstanceRecord>::empty());
    }
    while i < recs.len()
        invariant
            i <= recs.len(),
            records_appended(before, dest@, recs@.subrange(0, i as int)),
        decreases recs.len() - i,
    {
        let ghost middle = dest@;
        append_record(dest, &recs[i]);
        proof {
            lemma_appended_extends(before, middle, dest@, recs@.subrange(0, i as int), recs[i as int]);
            assert(recs@.subrange(0, i + 1) =~= recs@.subrange(0, i as int).push(recs[i as int]));
        }
        i += 1;
    }
    assert(recs@.subrange(0, i as int) =~= recs@);
}

/// Records appended to an empty buffer are what the buffer holds.
pub proof fn lemma_appended_to_empty(after: Seq<u8>, recs: Seq<InstanceRecord>)
    requires
        records_appended(Seq::<u8>::empty(), after, recs),
    ensures
        holds_records(after, recs),
{
    assert(after.subrange(0, after.len() as int) =~= after);
}

/// Appending first some records and then some more appends all of them.
pub proof fn lemma_appended_twice(
    before: Seq<u8>,
    middle: Seq<u8>,
    after: Seq<u8>,
    first: Seq<InstanceRecord>,
    second: Seq<InstanceRecord>,
)
    requires
        records_appended(before, middle, first),
        records_appended(middle, after, second),
    ensures
        records_appended(before, after, first + second),
{
    let b = before.len() as int;
    let m = middle.len() as int;
    let all = first + second;
    assert(after.subrange(0, b) =~= after.subrange(0, m).subrange(0, b));
    let tail = after.subrange(b, after.len() as int);
    let tail_mid = middle.subrange(b, m);
    let tail_end = after.subrange(m, after.len() as int);
    assert forall|i: int| 0 <= i < all.len() implies native_image(
        (#[trigger] all[i]).words(),
        tail.subrange(64 * i, 64 * i + 64),
    ) by {
        if i < first.len() {
            assert(all[i] == first[i]);
            assert(tail.subrange(64 * i, 64 * i + 64) =~= tail_mid.subrange(64 * i, 64 * i + 64));
        } else {
            let k = i - first.len();
            assert(all[i] == second[k]);
            assert(tail.subrange(64 * i, 64 * i + 64) =~= tail_end.subrange(64 * k, 64 * k + 64));
        }
    }
}

} // verus!
