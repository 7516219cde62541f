//! Copying files so that they can be mapped in large pages.

use vstd::prelude::*;
use vstd::string::*;

use crate::paths::{join_paths, parent};
use crate::text::{concat, show_u128};

verus! {

/// The size of a large page, in bytes.
pub const PMD_SIZE: u64 = 0x20_0000;

/// How much is handed to the kernel at once at most, in bytes.
pub const SENDFILE_MAX: u64 = 0x4000_0000;

/// The least number of bytes that fill large pages and hold `x` bytes.
pub open spec fn is_rounded_up(x: int, r: int) -> bool {
    r % (PMD_SIZE as int) == 0 && x <= r < x + PMD_SIZE
}

/// Rounds a number of bytes up to whole large pages.
pub fn round_up_pmd(x: u64) -> (r: u64)
    requires
        x <= u64::MAX - u64::MAX % PMD_SIZE,
    ensures
        is_rounded_up(x as int, r as int),
{
    if x == 0 {
        0
    } else {
        assert(((x - 1) / PMD_SIZE as int + 1) * PMD_SIZE <= u64::MAX) by (nonlinear_arith)
            requires
                0 < x <= u64::MAX - u64::MAX % PMD_SIZE,
                PMD_SIZE == 0x20_0000,
        ;
        ((x - 1) / PMD_SIZE + 1) * PMD_SIZE
    }
}

/// Only one number of bytes is rounded up to: rounding is unambiguous.
pub proof fn law_rounding_is_unique(x: int, a: int, b: int)
    requires
        is_rounded_up(x, a),
        is_rounded_up(x, b),
    ensures
        a == b,
{
    if a < b {
        assert((b - a) % (PMD_SIZE as int) == 0);
    }
    if b < a {
        assert((a - b) % (PMD_SIZE as int) == 0);
    }
}

/// The larger of two numbers is not rounded up to less, and what is rounded up stays as it is.
pub proof fn law_rounding_is_monotone(x: int, y: int, rx: int, ry: int)
    requires
        x <= y,
        is_rounded_up(x, rx),
        is_rounded_up(y, ry),
    ensures
        rx <= ry,
        is_rounded_up(rx, rx),
{
    if ry < rx {
        assert((rx - ry) % (PMD_SIZE as int) == 0);
    }
}

/// The copying of a file, chunk by chunk.
#[derive(Debug)]
pub struct CopyChunks {
    /// How many bytes are left.
    pub remaining: u64,
}

/// The sizes of the chunks that a number of bytes is copied in.
pub open spec fn chunk_sizes(remaining: nat) -> Seq<nat>
    decreases remaining,
{
    if remaining == 0 {
        Seq::empty()
    } else if remaining <= PMD_SIZE {
        seq![remaining]
    } else {
        seq![PMD_SIZE as nat] + chunk_sizes((remaining - PMD_SIZE) as nat)
    }
}

/// The sum of the sizes of chunks.
pub open spec fn total(sizes: Seq<nat>) -> nat
    decreases sizes.len(),
{
    if sizes.len() == 0 {
        0
    } else {
        sizes[0] + total(sizes.drop_first())
    }
}

impl CopyChunks {
    pub fn new(len: u64) -> (r: CopyChunks)
        ensures
            r.remaining == len,
    {
        CopyChunks { remaining: len }
    }

    /// The size of the next chunk, if there is one.
    pub fn next_chunk(&mut self) -> (r: Option<u64>)
        ensures
            match r {
                Some(want) => {
                    &&& chunk_sizes(old(self).remaining as nat).len() > 0
                    &&& want == chunk_sizes(old(self).remaining as nat)[0]
                    &&& final(self).remaining == old(self).remaining - want
                    &&& chunk_sizes(final(self).remaining as nat) == chunk_sizes(
                        old(self).remaining as nat,
                    ).drop_first()
                },
                None => old(self).remaining == 0 && *final(self) == *old(self),
            },
    {
        let ghost sizes = chunk_sizes(self.remaining as nat);
        if self.remaining == 0 {
            None
        } else {
            let want: u64 = if self.remaining <= PMD_SIZE {
                self.remaining
            } else {
                PMD_SIZE
            };
            self.remaining = self.remaining - want;
            assert(chunk_sizes(self.remaining as nat) =~= sizes.drop_first());
            Some(want)
        }
    }
}

/// The chunks of a file are the whole file, and all but the last are large pages.
pub proof fn law_chunks_make_up_the_file(len: nat)
    ensures
        total(chunk_sizes(len)) == len,
        forall|i: int|
            0 <= i < chunk_sizes(len).len() ==> 0 < #[trigger] chunk_sizes(len)[i] <= PMD_SIZE,
        forall|i: int|
            0 <= i < chunk_sizes(len).len() - 1 ==> #[trigger] chunk_sizes(len)[i] == PMD_SIZE,
    decreases len,
{
    if len == 0 {
    } else if len <= PMD_SIZE {
        assert(seq![len].drop_first() =~= Seq::<nat>::empty());
        reveal_with_fuel(total, 2);
    } else {
        let rest = chunk_sizes((len - PMD_SIZE) as nat);
        law_chunks_make_up_the_file((len - PMD_SIZE) as nat);
        assert(chunk_sizes(len).drop_first() =~= rest);
        assert(rest.len() > 0);
    }
}

/// What came of handing bytes to the kernel.
#[derive(Debug)]
pub enum SendOutcome {
    /// So many bytes were copied.
    Sent(u64),
    /// The kernel cannot do it for these files.
    Unsupported,
    Failed(String),
}

/// How far copying with the help of the kernel has come.
#[derive(Debug)]
pub enum SendPhase {
    /// So many bytes are to be handed to the kernel.
    Send(u64),
    /// The file has to be copied from its start, chunk by chunk.
    CopyAll,
    Finished,
    Failed(String),
}

/// The copying of a file with the help of the kernel.
#[derive(Debug)]
pub struct SendFile {
    /// How many bytes are left.
    pub remaining: u64,
    pub phase: SendPhase,
}

/// How it goes on when so many bytes are left.
pub open spec fn send_phase(remaining: u64) -> SendPhase {
    if remaining == 0 {
        SendPhase::Finished
    } else if remaining <= SENDFILE_MAX {
        SendPhase::Send(remaining)
    } else {
        SendPhase::Send(SENDFILE_MAX)
    }
}

impl SendFile {
    /// What is handed to the kernel is left, and no more than it takes.
    pub open spec fn wf(self) -> bool {
        self.phase is Send ==> self.phase == send_phase(self.remaining)
    }

    fn phase_for(remaining: u64) -> (r: SendPhase)
        ensures
            r == send_phase(remaining),
    {
        if remaining == 0 {
            SendPhase::Finished
        } else if remaining <= SENDFILE_MAX {
            SendPhase::Send(remaining)
        } else {
            SendPhase::Send(SENDFILE_MAX)
        }
    }

    pub fn new(len: u64) -> (r: SendFile)
        ensures
            r == (SendFile { remaining: len, phase: send_phase(len) }),
            r.wf(),
    {
        SendFile { remaining: len, phase: Self::phase_for(len) }
    }

    /// How it goes on. A file that ends early is copied as far as it goes.
    pub open spec fn next(self, outcome: SendOutcome) -> SendFile {
        match outcome {
            SendOutcome::Sent(n) => if n == 0 {
                SendFile { remaining: self.remaining, phase: SendPhase::Finished }
            } else {
                let rest = (self.remaining - n) as u64;
                SendFile { remaining: rest, phase: send_phase(rest) }
            },
            SendOutcome::Unsupported => SendFile {
                remaining: self.remaining,
                phase: SendPhase::CopyAll,
            },
            SendOutcome::Failed(err) => SendFile {
                remaining: self.remaining,
                phase: SendPhase::Failed(err),
            },
        }
    }

    /// Takes what came of handing bytes to the kernel.
    pub fn step(&mut self, outcome: SendOutcome)
        requires
            old(self).wf(),
            old(self).phase matches SendPhase::Send(want) && (outcome matches SendOutcome::Sent(n)
                ==> n <= want),
        ensures
            *final(self) == old(self).next(outcome),
            final(self).wf(),
    {
        match outcome {
            SendOutcome::Sent(n) => if n == 0 {
                self.phase = SendPhase::Finished;
            } else {
                self.remaining = self.remaining - n;
                self.phase = Self::phase_for(self.remaining);
            },
            SendOutcome::Unsupported => {
                self.phase = SendPhase::CopyAll;
            },
            SendOutcome::Failed(err) => {
                self.phase = SendPhase::Failed(err);
            },
        }
    }
}

/// Copying with the help of the kernel ends: fewer bytes are left with every call that goes
/// on.
pub proof fn law_sending_ends(m: SendFile, outcome: SendOutcome)
    requires
        m.wf(),
        m.phase matches SendPhase::Send(want) && (outcome matches SendOutcome::Sent(n) ==> n
            <= want),
    ensures
        m.next(outcome).phase is Send ==> m.next(outcome).remaining < m.remaining,
        m.next(outcome).phase is Finished ==> m.next(outcome).remaining == 0 || outcome
            == SendOutcome::Sent(0),
{
}

/// A file after bytes were written to it from an offset on, which is in the file or at its end.
pub open spec fn overwritten(file: Seq<u8>, at: int, bytes: Seq<u8>) -> Seq<u8> {
    if at + bytes.len() < file.len() {
        file.take(at) + bytes + file.skip(at + bytes.len())
    } else {
        file.take(at) + bytes
    }
}

/// A file after chunks of another one, of the sizes given, were copied to it from an offset on.
pub open spec fn chunks_copied(file: Seq<u8>, src: Seq<u8>, at: int, sizes: Seq<nat>) -> Seq<u8>
    decreases sizes.len(),
{
    if sizes.len() == 0 {
        file
    } else {
        chunks_copied(
            overwritten(file, at, src.subrange(at, at + sizes[0])),
            src,
            at + sizes[0],
            sizes.drop_first(),
        )
    }
}

/// A copy with the help of the kernel that is under way: how it goes on, and what has been
/// written so far. The kernel reads on where it read last, and writes on where it wrote last.
pub struct Sending {
    pub plan: SendFile,
    pub written: Seq<u8>,
}

/// What the kernel can make of a call, of a file that nobody changes meanwhile: it copies no
/// more than it is told to and than is left, and nothing only if nothing is left; or it fails,
/// and copies nothing.
pub open spec fn can_come(src: Seq<u8>, c: Sending, outcome: SendOutcome) -> bool {
    &&& c.plan.phase is Send
    &&& match outcome {
        SendOutcome::Sent(n) => {
            &&& n <= c.plan.phase->Send_0
            &&& c.written.len() + n <= src.len()
            &&& n == 0 ==> c.written.len() == src.len()
        },
        _ => true,
    }
}

/// The copy after a call to the kernel.
pub open spec fn called(src: Seq<u8>, c: Sending, outcome: SendOutcome) -> Sending {
    Sending {
        plan: c.plan.next(outcome),
        written: match outcome {
            SendOutcome::Sent(n) => c.written + src.subrange(
                c.written.len() as int,
                c.written.len() + n,
            ),
            _ => c.written,
        },
    }
}

/// The copy after calls to the kernel, one after another.
pub open spec fn called_all(src: Seq<u8>, outcomes: Seq<SendOutcome>) -> Sending
    decreases outcomes.len(),
{
    if outcomes.len() == 0 {
        Sending {
            plan: SendFile { remaining: src.len() as u64, phase: send_phase(src.len() as u64) },
            written: Seq::empty(),
        }
    } else {
        called(src, called_all(src, outcomes.drop_last()), outcomes.last())
    }
}

/// What the kernel can make of calls, one after another.
pub open spec fn can_all_come(src: Seq<u8>, outcomes: Seq<SendOutcome>) -> bool
    decreases outcomes.len(),
{
    outcomes.len() == 0 || (can_all_come(src, outcomes.drop_last()) && can_come(
        src,
        called_all(src, outcomes.drop_last()),
        outcomes.last(),
    ))
}

/// The file that a copy leaves, if it does not fail: what the kernel wrote, or what is there
/// after all was copied once more from the start, chunk by chunk.
pub open spec fn file_left(src: Seq<u8>, c: Sending) -> Option<Seq<u8>> {
    match c.plan.phase {
        SendPhase::Finished => Some(c.written),
        SendPhase::CopyAll => Some(
            chunks_copied(c.written, src, 0, chunk_sizes(src.len())),
        ),
        _ => None,
    }
}

proof fn lemma_chunks_copied(file: Seq<u8>, src: Seq<u8>, at: nat)
    requires
        at <= file.len() <= src.len(),
        file == src.take(file.len() as int),
    ensures
        chunks_copied(file, src, at as int, chunk_sizes((src.len() - at) as nat)) == (if at
            < src.len() {
            src
        } else {
            file
        }),
    decreases src.len() - at,
{
    let sizes = chunk_sizes((src.len() - at) as nat);
    if at < src.len() {
        let size = sizes[0];
        let bytes = src.subrange(at as int, (at + size) as int);
        let next = overwritten(file, at as int, bytes);
        assert(next.len() == (if at + size < file.len() {
            file.len()
        } else {
            (at + size) as nat
        }));
        assert(next =~= src.take(next.len() as int));
        assert(sizes.drop_first() =~= chunk_sizes((src.len() - at - size) as nat));
        lemma_chunks_copied(next, src, (at + size) as nat);
        if at + size == src.len() {
            assert(next =~= src);
        }
    }
}

/// Copying a file chunk by chunk, to one that is empty or holds what the file starts with,
/// leaves the file.
pub proof fn law_chunks_copy_the_file(src: Seq<u8>, file: Seq<u8>)
    requires
        file.len() <= src.len(),
        file == src.take(file.len() as int),
    ensures
        chunks_copied(file, src, 0, chunk_sizes(src.len())) == src,
{
    lemma_chunks_copied(file, src, 0);
    if src.len() == 0 {
        assert(file =~= src);
    }
}

/// A copy with the help of the kernel leaves the file that was copied, whatever the kernel makes
/// of the calls: no byte is there twice and none is missing, also if it could not go on after
/// some of them. It fails if and only if the kernel failed for another reason, and for that
/// reason.
pub proof fn law_sending_copies_the_file(src: Seq<u8>, outcomes: Seq<SendOutcome>)
    requires
        src.len() <= u64::MAX,
        can_all_come(src, outcomes),
    ensures
        ({
            let c = called_all(src, outcomes);
            &&& c.plan.wf()
            &&& c.written.len() + c.plan.remaining == src.len()
            &&& c.written == src.take(c.written.len() as int)
            &&& file_left(src, c) is Some ==> file_left(src, c) == Some(src)
            &&& c.plan.phase is Failed <==> outcomes.len() > 0 && outcomes.last() is Failed
            &&& c.plan.phase is Failed ==> c.plan.phase->Failed_0 == outcomes.last()->Failed_0
        }),
    decreases outcomes.len(),
{
    let c = called_all(src, outcomes);
    if outcomes.len() == 0 {
        assert(c.written =~= src.take(0));
    } else {
        law_sending_copies_the_file(src, outcomes.drop_last());
        assert(c.written =~= src.take(c.written.len() as int));
    }
    if c.plan.phase is Finished {
        assert(c.written =~= src);
    }
    law_chunks_copy_the_file(src, c.written);
}

/// The path of the file that a copy is written to before it gets its name, in the directory
/// that it gets its name in; `None` if there is no such directory.
pub fn tmp_path(dst: &str, nonce: u128) -> (r: Option<String>)
    ensures
        match crate::paths::parent_of(dst@) {
            Some(dir) => r is Some && r->0@ == crate::paths::joined(
                dir,
                ".tmp-hdax-"@ + crate::text::decimal(nonce as nat),
            ),
            None => r is None,
        },
{
    match parent(dst) {
        Some(dir) => Some(
            join_paths(dir.as_str(), concat(".tmp-hdax-", show_u128(nonce).as_str()).as_str()),
        ),
        None => None,
    }
}

/// The steps of a copy that appears under its name all at once.
#[derive(Clone, Copy, Debug, PartialEq, Eq, Structural)]
pub enum AtomicStep {
    OpenSource,
    CreateTmp,
    /// Set so many bytes aside.
    Allocate(u64),
    CopyData,
    SyncData,
    /// Give the copy its name.
    Rename,
    /// Make the name last.
    SyncDir,
}

/// The step after another one, given the length of the file.
pub open spec fn step_after(step: AtomicStep, alloc: u64) -> Option<AtomicStep> {
    match step {
        AtomicStep::OpenSource => Some(AtomicStep::CreateTmp),
        AtomicStep::CreateTmp => Some(
            if alloc > 0 {
                AtomicStep::Allocate(alloc)
            } else {
                AtomicStep::CopyData
            },
        ),
        AtomicStep::Allocate(_) => Some(AtomicStep::CopyData),
        AtomicStep::CopyData => Some(AtomicStep::SyncData),
        AtomicStep::SyncData => Some(AtomicStep::Rename),
        AtomicStep::Rename => Some(AtomicStep::SyncDir),
        AtomicStep::SyncDir => None,
    }
}

/// The step after another one that succeeded, given the length of the file; `None` after the
/// last one. As many bytes are set aside as the file takes in large pages.
pub fn next_step(step: AtomicStep, len: u64) -> (r: Option<AtomicStep>)
    requires
        len <= u64::MAX - u64::MAX % PMD_SIZE,
    ensures
        exists|alloc: u64|
            is_rounded_up(len as int, alloc as int) && r == #[trigger] step_after(step, alloc),
{
    let alloc: u64 = round_up_pmd(len);
    let r = match step {
        AtomicStep::OpenSource => Some(AtomicStep::CreateTmp),
        AtomicStep::CreateTmp => Some(
            if alloc > 0 {
                AtomicStep::Allocate(alloc)
            } else {
                AtomicStep::CopyData
            },
        ),
        AtomicStep::Allocate(_) => Some(AtomicStep::CopyData),
        AtomicStep::CopyData => Some(AtomicStep::SyncData),
        AtomicStep::SyncData => Some(AtomicStep::Rename),
        AtomicStep::Rename => Some(AtomicStep::SyncDir),
        AtomicStep::SyncDir => None,
    };
    assert(r == step_after(step, alloc));
    r
}

/// A copy gets its name only once its data is on disk.
pub proof fn law_name_comes_after_data(step: AtomicStep, alloc: u64)
    ensures
        step_after(step, alloc) == Some(AtomicStep::Rename) ==> step is SyncData,
        step_after(step, alloc) == Some(AtomicStep::SyncData) ==> step is CopyData,
        step_after(step, alloc) is None ==> step is SyncDir,
{
}

/// How copying with the help of the kernel goes on. What was copied is no longer left, and the
/// kernel is told to copy the rest, or a gibibyte of it; nothing more is done once nothing is left,
/// or the kernel copies nothing. Where it cannot do it, the file is copied from its start;
/// where it fails, copying fails, and for the reason given.
pub proof fn law_how_sending_goes_on(m: SendFile, outcome: SendOutcome)
    requires
        m.wf(),
        m.phase matches SendPhase::Send(want) && (outcome matches SendOutcome::Sent(n) ==> n
            <= want),
    ensures
        ({
            let after = m.next(outcome);
            match outcome {
                SendOutcome::Sent(n) => {
                    &&& after.remaining == m.remaining - n
                    &&& after.phase is Finished || after.phase is Send
                    &&& after.phase is Finished <==> n == 0 || n == m.remaining
                    &&& after.phase is Send ==> {
                        let want = after.phase->Send_0;
                        &&& 0 < want <= 0x4000_0000
                        &&& want == after.remaining || (want == 0x4000_0000 && want
                            < after.remaining)
                    }
                },
                SendOutcome::Unsupported => after.phase is CopyAll,
                SendOutcome::Failed(err) => after.phase is Failed && after.phase->Failed_0 == err,
            }
        }),
{
}

/// How copying with the help of the kernel begins: an empty file is copied at once, and of any
/// other the kernel is told to copy all of it, or the first gibibyte.
pub proof fn law_how_sending_begins(len: u64)
    ensures
        len == 0 <==> send_phase(len) is Finished,
        len > 0 <==> send_phase(len) is Send,
        0 < len <= 0x4000_0000 ==> send_phase(len)->Send_0 == len,
        len > 0x4000_0000 ==> send_phase(len)->Send_0 == 0x4000_0000,
{
}

/// Large pages have two mebibytes, and as many bytes are set aside for a file as fill the fewest of
/// them that hold it.
pub proof fn law_what_large_pages_hold(x: int, r: int, pages: int)
    requires
        is_rounded_up(x, r),
        pages * 0x20_0000 >= x,
    ensures
        r % 0x20_0000 == 0,
        x <= r <= pages * 0x20_0000,
{
    if pages * 0x20_0000 < r {
        assert(pages <= r / 0x20_0000 - 1);
    }
}

/// A copy goes through all of its steps in order, once each, and sets bytes aside only if there
/// are some to set aside.
pub proof fn law_steps_of_a_copy(alloc: u64)
    ensures
        step_after(AtomicStep::OpenSource, alloc) == Some(AtomicStep::CreateTmp),
        alloc > 0 ==> step_after(AtomicStep::CreateTmp, alloc) == Some(
            AtomicStep::Allocate(alloc),
        ),
        alloc == 0 ==> step_after(AtomicStep::CreateTmp, alloc) == Some(AtomicStep::CopyData),
        step_after(AtomicStep::Allocate(alloc), alloc) == Some(AtomicStep::CopyData),
        step_after(AtomicStep::CopyData, alloc) == Some(AtomicStep::SyncData),
        step_after(AtomicStep::SyncData, alloc) == Some(AtomicStep::Rename),
        step_after(AtomicStep::Rename, alloc) == Some(AtomicStep::SyncDir),
        step_after(AtomicStep::SyncDir, alloc) is None,
{
}

/// The chunks of a file follow from those of a file that is a large page shorter: a file of two
/// mebibytes or less is one chunk, and a longer one has one chunk of two mebibytes more.
pub proof fn law_how_a_file_is_cut(len: nat)
    ensures
        chunk_sizes(0).len() == 0,
        0 < len <= 0x20_0000 ==> chunk_sizes(len) == seq![len],
        chunk_sizes(len + 0x20_0000).len() == chunk_sizes(len).len() + 1,
        chunk_sizes(len + 0x20_0000)[0] == 0x20_0000,
        chunk_sizes(len + 0x20_0000).drop_first() == chunk_sizes(len),
{
    if len == 0 {
        assert(chunk_sizes(0x20_0000) =~= seq![0x20_0000nat]);
    }
    assert(chunk_sizes(len + 0x20_0000).drop_first() =~= chunk_sizes(len));
}

} // verus!
