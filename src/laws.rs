//! Properties of the pipeline that hold across calls.
use vstd::prelude::*;
use crate::chunking::{chunk_count, chunk_of, lemma_chunk_bounds, CHUNK_SIZE};
use crate::publisher::{Call, FileStep, Publisher, Reply};
use crate::types::{same_texts, texts, unit_names};

verus! {

/// The hash that answers the storing of chunk `k` of a file takes position
/// `k` of the file record's hash list, after the hashes of chunks `0..k`:
/// the list follows the chunks' order, whatever the order of the answers in time.
pub proof fn lemma_chunk_hash_position(p: Publisher, q: Publisher, h: String, now: crate::types::Timestamp, c: Call)
    requires
        p.wf(),
        p.stage is Units,
        p.file != FileStep::Record,
        p.chunks_left(),
        p.calls(c, now),
        p.answers(q, Reply::Hash(h)),
    ensures
        c matches Call::StoreChunk(b) && b@ == chunk_of(
            p.file_content(),
            p.chunk_hashes@.len() as int,
            CHUNK_SIZE as nat,
        ),
        q.chunk_hashes@.len() == p.chunk_hashes@.len() + 1,
        q.chunk_hashes@.take(p.chunk_hashes@.len() as int) == p.chunk_hashes@,
        q.chunk_hashes@[p.chunk_hashes@.len() as int] == h,
        q.file_content() == p.file_content(),
{
    assert(q.chunk_hashes@.take(p.chunk_hashes@.len() as int) =~= p.chunk_hashes@);
}

/// A file record is only created once every chunk of the file has a hash;
/// it then carries the file's exact byte length and every chunk hash, in order.
pub proof fn lemma_file_record_complete(p: Publisher, c: Call, now: crate::types::Timestamp)
    requires
        p.wf(),
        p.calls(c, now),
        c is CreateFile,
    ensures
        c matches Call::CreateFile(m) && {
            &&& m.size == p.file_content().len()
            &&& same_texts(m.chunks_hashes@, p.chunk_hashes@)
            &&& m.chunks_hashes@.len() == chunk_count(p.file_content().len(), CHUNK_SIZE as nat)
        },
{
}

/// Content of exactly one chunk's size is one chunk; one byte more makes two,
/// the second of length one.
pub proof fn lemma_chunk_boundary(content: Seq<u8>)
    requires
        content.len() == CHUNK_SIZE || content.len() == CHUNK_SIZE + 1,
    ensures
        content.len() == CHUNK_SIZE ==> chunk_count(content.len(), CHUNK_SIZE as nat) == 1
            && chunk_of(content, 0, CHUNK_SIZE as nat) == content,
        content.len() == CHUNK_SIZE + 1 ==> {
            &&& chunk_count(content.len(), CHUNK_SIZE as nat) == 2
            &&& chunk_of(content, 0, CHUNK_SIZE as nat) == content.take(CHUNK_SIZE as int)
            &&& chunk_of(content, 1, CHUNK_SIZE as nat) == seq![content[CHUNK_SIZE as int]]
        },
{
    lemma_chunk_bounds(content.len(), CHUNK_SIZE as nat, 0);
    assert(content.subrange(0, content.len() as int) =~= content);
    if content.len() == CHUNK_SIZE + 1 {
        lemma_chunk_bounds(content.len(), CHUNK_SIZE as nat, 1);
        assert(chunk_of(content, 1, CHUNK_SIZE as nat) =~= seq![content[CHUNK_SIZE as int]]);
    }
}

/// The template is only published once every code unit has been published,
/// and the instantiated package only once the template has: a failed call
/// stops the run, and a stopped run asks for no further call.
pub proof fn lemma_dependency_order(p: Publisher, q: Publisher, reply: Reply, c: Call, now: crate::types::Timestamp)
    requires
        p.wf(),
        p.is_active(),
        p.answers(q, reply),
        q.calls(c, now),
    ensures
        !(reply is Hash || (reply is Payload && p.stage is Instance)) ==> q.stage is Failed && c is Stopped,
        c is PublishTemplate && !(p.stage is Template) ==> {
            &&& p.stage is Units
            &&& p.file == FileStep::Record
            &&& p.unit + 1 == p.units@.len()
            &&& reply is Hash
            &&& q.unit_hashes@.len() == q.units@.len()
        },
        c is PublishInstance && !(p.stage is Instance) ==> p.stage is Template && reply is Hash,
{
}

/// The template references the package's code units in their given order,
/// each under its own name and the hash that its publication answered with.
pub proof fn lemma_reference_integrity(p: Publisher, c: Call, now: crate::types::Timestamp)
    requires
        p.wf(),
        p.calls(c, now),
        c is PublishTemplate,
    ensures
        c matches Call::PublishTemplate(t) && {
            &&& t.name@ == p.package_name@
            &&& t.zome_defs@.len() == p.units@.len()
            &&& forall|i: int|
                0 <= i < p.units@.len() ==> {
                    &&& (#[trigger] t.zome_defs@[i]).name@ == p.units@[i].name@
                    &&& t.zome_defs@[i].zome_def_hash@ == p.unit_hashes@[i]@
                }
        },
{
    if let Call::PublishTemplate(t) = c {
        assert forall|i: int| 0 <= i < p.units@.len() implies {
            &&& (#[trigger] t.zome_defs@[i]).name@ == p.units@[i].name@
            &&& t.zome_defs@[i].zome_def_hash@ == p.unit_hashes@[i]@
        } by {
            assert(unit_names(p.units@)[i] == p.units@[i].name@);
            assert(texts(p.unit_hashes@)[i] == p.unit_hashes@[i]@);
        }
    }
}

/// Publishing code unit `k` appends the hash it answered with at position
/// `k` of the unit hashes, keeping those of the units before it.
pub proof fn lemma_unit_hash_position(p: Publisher, q: Publisher, h: String)
    requires
        p.wf(),
        p.stage is Units,
        p.file == FileStep::Record,
        p.answers(q, Reply::Hash(h)),
    ensures
        q.unit_hashes@.len() == p.unit + 1,
        q.unit_hashes@.take(p.unit as int) == p.unit_hashes@,
        q.unit_hashes@[p.unit as int] == h,
{
    assert(q.unit_hashes@.take(p.unit as int) =~= p.unit_hashes@);
}

} // verus!
