//! The stack-map table attribute: frames keyed by a tag byte, each
//! carrying an offset delta; a frame's absolute offset is never stored
//! but derived by accumulation over the preceding frames.
//!
//! Verification-type info for the richer frames is deliberately left
//! undecoded: only the tag framing and the offset-delta field are read.

use vstd::prelude::*;

use crate::constant::ConstantPool;
use crate::error::Error;
use crate::reader::{be_u16_at, can_read, Reader};

verus! {

/// A same-locals-one-stack-item entry; the delta is the tag less 64,
/// and the single stack item's type info is left undecoded.
#[derive(Debug, Clone, Copy, PartialEq, Eq, Structural)]
pub struct SameLocalsOneStackItemFrameInfo;

/// A same-locals-one-stack-item entry in extended form.
#[derive(Debug, Clone, Copy, PartialEq, Eq, Structural)]
pub struct SameLocalsOneStackItemFrameExtendedInfo {
    pub offset_delta: u16,
}

/// A chop-frame entry.
#[derive(Debug, Clone, Copy, PartialEq, Eq, Structural)]
pub struct ChopFrameInfo {
    pub offset_delta: u16,
}

/// A same-frame entry in extended form.
#[derive(Debug, Clone, Copy, PartialEq, Eq, Structural)]
pub struct SameFrameExtendedInfo {
    pub offset_delta: u16,
}

/// An append-frame entry; its locals are left undecoded.
#[derive(Debug, Clone, Copy, PartialEq, Eq, Structural)]
pub struct AppendFrameInfo {
    pub offset_delta: u16,
}

/// A full-frame entry; its locals and stack are left undecoded.
#[derive(Debug, Clone, Copy, PartialEq, Eq, Structural)]
pub struct FullFrameInfo {
    pub offset_delta: u16,
}

/// The frame payload, selected by the tag's range.
#[derive(Debug, Clone, Copy, PartialEq, Eq, Structural)]
pub enum StackMapFrameInfo {
    SameFrame,
    SameLocalsOneStackItemFrame(SameLocalsOneStackItemFrameInfo),
    SameLocalsOneStackItemFrameExtended(SameLocalsOneStackItemFrameExtendedInfo),
    ChopFrame(ChopFrameInfo),
    SameFrameExtended(SameFrameExtendedInfo),
    AppendFrame(AppendFrameInfo),
    FullFrame(FullFrameInfo),
}

/// One stack-map frame: the tag byte as read, and the payload it
/// selected.
#[derive(Debug, Clone, Copy, PartialEq, Eq, Structural)]
pub struct StackMapFrame {
    pub tag: u8,
    pub info: StackMapFrameInfo,
}

/// The payload kind agrees with the tag's range, as decoding guarantees.
pub open spec fn frame_wf(f: StackMapFrame) -> bool {
    match f.info {
        StackMapFrameInfo::SameFrame => f.tag <= 63,
        StackMapFrameInfo::SameLocalsOneStackItemFrame(_) => 64 <= f.tag <= 127,
        StackMapFrameInfo::SameLocalsOneStackItemFrameExtended(_) => f.tag == 247,
        StackMapFrameInfo::ChopFrame(_) => 248 <= f.tag <= 250,
        StackMapFrameInfo::SameFrameExtended(_) => f.tag == 251,
        StackMapFrameInfo::AppendFrame(_) => 252 <= f.tag <= 254,
        StackMapFrameInfo::FullFrame(_) => f.tag == 255,
    }
}

/// The frame's offset delta: the tag itself for a same frame, the tag
/// less 64 for a one-stack-item frame, the explicit field otherwise.
pub open spec fn spec_offset_delta(f: StackMapFrame) -> int {
    match f.info {
        StackMapFrameInfo::SameFrame => f.tag as int,
        StackMapFrameInfo::SameLocalsOneStackItemFrame(_) => f.tag - 64,
        StackMapFrameInfo::SameLocalsOneStackItemFrameExtended(i) => i.offset_delta as int,
        StackMapFrameInfo::ChopFrame(i) => i.offset_delta as int,
        StackMapFrameInfo::SameFrameExtended(i) => i.offset_delta as int,
        StackMapFrameInfo::AppendFrame(i) => i.offset_delta as int,
        StackMapFrameInfo::FullFrame(i) => i.offset_delta as int,
    }
}

/// The deltas of `frames` summed, plus one for each frame: what every
/// frame after them adds to its own delta to find its offset.
pub open spec fn deltas_sum(frames: Seq<StackMapFrame>) -> int
    decreases frames.len(),
{
    if frames.len() == 0 {
        0
    } else {
        deltas_sum(frames.drop_last()) + spec_offset_delta(frames.last()) + 1
    }
}

/// The resolved offset of a frame `f` preceded by `frames`: its own
/// delta, plus the accumulated deltas (each with a leading one) of
/// every frame before it. The first frame of a table has no leading one.
pub open spec fn spec_offset(frames: Seq<StackMapFrame>, f: StackMapFrame) -> int {
    deltas_sum(frames) + spec_offset_delta(f)
}

/// The deltas of `frames` summed with no extra ones.
pub open spec fn sum_of_deltas(frames: Seq<StackMapFrame>) -> int
    decreases frames.len(),
{
    if frames.len() == 0 {
        0
    } else {
        sum_of_deltas(frames.drop_last()) + spec_offset_delta(frames.last())
    }
}

proof fn lemma_deltas_sum_counts_frames(frames: Seq<StackMapFrame>)
    ensures
        deltas_sum(frames) == sum_of_deltas(frames) + frames.len(),
    decreases frames.len(),
{
    if frames.len() > 0 {
        lemma_deltas_sum_counts_frames(frames.drop_last());
    }
}

/// Stack-map offset law: for a table with deltas `d0 .. d(N-1)`, frame
/// `k`'s resolved offset equals `d0 + 1 + d1 + 1 + ... + dk`: the
/// deltas through `k` summed, with one added for each frame after the
/// first.
pub proof fn lemma_stack_map_offset_law(frames: Seq<StackMapFrame>, k: int)
    requires
        0 <= k < frames.len(),
    ensures
        spec_offset(frames.take(k), frames[k]) == sum_of_deltas(frames.take(k + 1)) + k,
{
    lemma_deltas_sum_counts_frames(frames.take(k));
    assert(frames.take(k + 1).drop_last() =~= frames.take(k));
    assert(frames.take(k + 1).last() == frames[k]);
    assert(sum_of_deltas(frames.take(k + 1)) == sum_of_deltas(frames.take(k))
        + spec_offset_delta(frames[k]));
}

proof fn lemma_deltas_nonneg(frames: Seq<StackMapFrame>)
    requires
        forall|i: int| 0 <= i < frames.len() ==> frame_wf(#[trigger] frames[i]),
    ensures
        deltas_sum(frames) >= 0,
    decreases frames.len(),
{
    if frames.len() > 0 {
        assert(forall|i: int|
            0 <= i < frames.drop_last().len() ==> frame_wf(#[trigger] frames.drop_last()[i]));
        lemma_deltas_nonneg(frames.drop_last());
        assert(frame_wf(frames.last()));
    }
}

proof fn lemma_deltas_sum_prefix(frames: Seq<StackMapFrame>, i: int)
    requires
        0 <= i <= frames.len(),
        forall|j: int| 0 <= j < frames.len() ==> frame_wf(#[trigger] frames[j]),
    ensures
        deltas_sum(frames.take(i)) <= deltas_sum(frames),
    decreases frames.len() - i,
{
    if i == frames.len() {
        assert(frames.take(i) =~= frames);
    } else {
        lemma_deltas_sum_prefix(frames, i + 1);
        assert(frames.take(i + 1).drop_last() =~= frames.take(i));
        assert(frames.take(i + 1).last() == frames[i]);
        assert(frame_wf(frames[i]));
    }
}

/// Reads the payload a tag selects; a tag in the reserved range
/// `128 ..= 246` is a hard `BadTagValue` error carrying the byte.
pub open spec fn spec_read_frame_info(s: Seq<u8>, pos: int, tag: u8) -> Result<
    (StackMapFrameInfo, int),
    Error,
> {
    if tag <= 63 {
        Ok((StackMapFrameInfo::SameFrame, pos))
    } else if tag <= 127 {
        Ok(
            (
                StackMapFrameInfo::SameLocalsOneStackItemFrame(SameLocalsOneStackItemFrameInfo),
                pos,
            ),
        )
    } else if tag <= 246 {
        Err(Error::BadTagValue(tag))
    } else if tag == 247 {
        if can_read(s, pos, 2) {
            Ok(
                (
                    StackMapFrameInfo::SameLocalsOneStackItemFrameExtended(
                        SameLocalsOneStackItemFrameExtendedInfo { offset_delta: be_u16_at(s, pos) },
                    ),
                    pos + 2,
                ),
            )
        } else {
            Err(Error::Truncation)
        }
    } else if tag <= 250 {
        if can_read(s, pos, 2) {
            Ok(
                (
                    StackMapFrameInfo::ChopFrame(ChopFrameInfo { offset_delta: be_u16_at(s, pos) }),
                    pos + 2,
                ),
            )
        } else {
            Err(Error::Truncation)
        }
    } else if tag == 251 {
        if can_read(s, pos, 2) {
            Ok(
                (
                    StackMapFrameInfo::SameFrameExtended(
                        SameFrameExtendedInfo { offset_delta: be_u16_at(s, pos) },
                    ),
                    pos + 2,
                ),
            )
        } else {
            Err(Error::Truncation)
        }
    } else if tag <= 254 {
        if can_read(s, pos, 2) {
            Ok(
                (
                    StackMapFrameInfo::AppendFrame(
                        AppendFrameInfo { offset_delta: be_u16_at(s, pos) },
                    ),
                    pos + 2,
                ),
            )
        } else {
            Err(Error::Truncation)
        }
    } else {
        if can_read(s, pos, 2) {
            Ok(
                (
                    StackMapFrameInfo::FullFrame(FullFrameInfo { offset_delta: be_u16_at(s, pos) }),
                    pos + 2,
                ),
            )
        } else {
            Err(Error::Truncation)
        }
    }
}

/// Reads one frame: a tag byte, then exactly the fields its range
/// implies.
pub open spec fn spec_read_frame(s: Seq<u8>, pos: int) -> Result<(StackMapFrame, int), Error> {
    if !can_read(s, pos, 1) {
        Err(Error::Truncation)
    } else {
        let tag = s[pos];
        match spec_read_frame_info(s, pos + 1, tag) {
            Ok(v) => Ok((StackMapFrame { tag, info: v.0 }, v.1)),
            Err(e) => Err(e),
        }
    }
}

/// Reads `n` frames in sequence from the same cursor.
pub open spec fn spec_read_frames(s: Seq<u8>, pos: int, n: int) -> Result<
    (Seq<StackMapFrame>, int),
    Error,
>
    decreases n,
{
    if n <= 0 {
        Ok((Seq::empty(), pos))
    } else {
        match spec_read_frame(s, pos) {
            Err(e) => Err(e),
            Ok(v) => match spec_read_frames(s, v.1, n - 1) {
                Err(e) => Err(e),
                Ok(w) => Ok((seq![v.0] + w.0, w.1)),
            },
        }
    }
}

/// Every decoded frame of a frame run satisfies `frame_wf`.
pub proof fn lemma_spec_read_frames_wf(s: Seq<u8>, pos: int, n: int)
    ensures
        spec_read_frames(s, pos, n) matches Ok(v) ==> forall|i: int|
            0 <= i < v.0.len() ==> frame_wf(#[trigger] v.0[i]),
    decreases n,
{
    if n > 0 {
        if let Ok(v) = spec_read_frame(s, pos) {
            lemma_spec_read_frames_wf(s, v.1, n - 1);
        }
    }
}

/// Reads a stack-map table payload: a 16-bit frame count, then that
/// many frames.
pub open spec fn spec_read_stack_map_table(s: Seq<u8>, pos: int) -> Result<
    (Seq<StackMapFrame>, int),
    Error,
> {
    if !can_read(s, pos, 2) {
        Err(Error::Truncation)
    } else {
        spec_read_frames(s, pos + 2, be_u16_at(s, pos) as int)
    }
}

/// The stack-map table attribute payload.
#[derive(Debug, Clone, PartialEq, Eq)]
pub struct StackMapTableAttrInfo {
    entries: Vec<StackMapFrame>,
}

impl View for StackMapTableAttrInfo {
    type V = Seq<StackMapFrame>;

    closed spec fn view(&self) -> Seq<StackMapFrame> {
        self.entries@
    }
}

impl StackMapTableAttrInfo {
    /// Every frame of a decoded table satisfies `frame_wf`.
    pub open spec fn wf(&self) -> bool {
        forall|i: int| 0 <= i < self@.len() ==> frame_wf(#[trigger] self@[i])
    }

    #[verifier::loop_isolation(false)]
    pub fn read(r: &mut Reader, _pool: &ConstantPool) -> (res: Result<
        StackMapTableAttrInfo,
        Error,
    >)
        requires
            old(r).wf(),
        ensures
            final(r).bytes() == old(r).bytes(),
            final(r).wf(),
            old(r).position() <= final(r).position(),
            match spec_read_stack_map_table(old(r).bytes(), old(r).position()) {
                Ok(v) => res matches Ok(t) && t@ == v.0 && t.wf() && final(r).position() == v.1,
                Err(e) => res matches Err(e2) && e2 == e,
            },
    {
        let ghost s = old(r).bytes();
        let ghost pos0 = old(r).position();
        let n = match r.read_u16() {
            Ok(v) => v,
            Err(e) => { return Err(e); },
        };
        let mut entries: Vec<StackMapFrame> = Vec::new();
        let mut i: usize = 0;
        while i < n as usize
            invariant
                r.wf(),
                r.bytes() == s,
                i <= n as usize,
                pos0 + 2 <= r.position(),
                match spec_read_frames(s, r.position(), n as int - i) {
                    Ok(v) => spec_read_frames(s, pos0 + 2, n as int) == Ok::<_, Error>(
                        (entries@ + v.0, v.1),
                    ),
                    Err(e) => spec_read_frames(s, pos0 + 2, n as int) == Err::<
                        (Seq<StackMapFrame>, int),
                        _,
                    >(e),
                },
            decreases n as int - i,
        {
            let ghost p_before = r.position();
            let entry = match StackMapFrame::read(r) {
                Ok(v) => v,
                Err(e) => { return Err(e); },
            };
            proof {
                match spec_read_frames(s, r.position(), n as int - i - 1) {
                    Ok(v) => {
                        assert(spec_read_frames(s, p_before, n as int - i) == Ok::<_, Error>(
                            (seq![entry] + v.0, v.1),
                        ));
                        assert(entries@.push(entry) + v.0 =~= entries@ + (seq![entry] + v.0));
                    },
                    Err(_) => {},
                }
            }
            entries.push(entry);
            i = i + 1;
        }
        proof {
            assert(entries@ + Seq::<StackMapFrame>::empty() =~= entries@);
            lemma_spec_read_frames_wf(s, pos0 + 2, n as int);
        }
        Ok(StackMapTableAttrInfo { entries })
    }

    /// The decoded frames, in file order.
    pub fn entries(&self) -> (r: &Vec<StackMapFrame>)
        ensures
            r@ == self@,
    {
        &self.entries
    }
}

impl StackMapFrame {
    pub fn read(r: &mut Reader) -> (res: Result<StackMapFrame, Error>)
        requires
            old(r).wf(),
        ensures
            final(r).bytes() == old(r).bytes(),
            final(r).wf(),
            old(r).position() <= final(r).position(),
            match spec_read_frame(old(r).bytes(), old(r).position()) {
                Ok(v) => res matches Ok(c) && c == v.0 && frame_wf(c) && final(r).position()
                    == v.1,
                Err(e) => res matches Err(e2) && e2 == e,
            },
    {
        let tag = match r.read_u8() {
            Ok(v) => v,
            Err(e) => { return Err(e); },
        };
        let info = match StackMapFrameInfo::read(r, tag) {
            Ok(v) => v,
            Err(e) => { return Err(e); },
        };
        Ok(StackMapFrame { tag, info })
    }

    /// The frame's offset delta, as `spec_offset_delta` gives it.
    pub fn offset_delta(&self) -> (d: usize)
        requires
            frame_wf(*self),
        ensures
            d == spec_offset_delta(*self),
    {
        match &self.info {
            StackMapFrameInfo::SameFrame => self.tag as usize,
            StackMapFrameInfo::SameLocalsOneStackItemFrame(_) => (self.tag - 64) as usize,
            StackMapFrameInfo::SameLocalsOneStackItemFrameExtended(info) => info.offset_delta
                as usize,
            StackMapFrameInfo::ChopFrame(info) => info.offset_delta as usize,
            StackMapFrameInfo::SameFrameExtended(info) => info.offset_delta as usize,
            StackMapFrameInfo::AppendFrame(info) => info.offset_delta as usize,
            StackMapFrameInfo::FullFrame(info) => info.offset_delta as usize,
        }
    }

    /// The frame's resolved bytecode offset, derived on demand by
    /// accumulating the deltas of the strictly preceding `frames`.
    #[verifier::loop_isolation(false)]
    pub fn offset(&self, frames: &[StackMapFrame]) -> (o: usize)
        requires
            frame_wf(*self),
            forall|i: int| 0 <= i < frames@.len() ==> frame_wf(#[trigger] frames@[i]),
            spec_offset(frames@, *self) <= usize::MAX,
        ensures
            o == spec_offset(frames@, *self),
    {
        let mut acc: usize = 0;
        let mut i: usize = 0;
        proof {
            assert(frames@.take(0) =~= Seq::<StackMapFrame>::empty());
            lemma_deltas_nonneg(frames@);
        }
        while i < frames.len()
            invariant
                i <= frames@.len(),
                acc == deltas_sum(frames@.take(i as int)),
            decreases frames@.len() - i,
        {
            proof {
                lemma_deltas_sum_prefix(frames@, i as int + 1);
                assert(frames@.take(i as int + 1).drop_last() =~= frames@.take(i as int));
                assert(frames@.take(i as int + 1).last() == frames@[i as int]);
                assert(spec_offset_delta(*self) >= 0);
            }
            let f = vstd::slice::slice_index_get(frames, i);
            let d = f.offset_delta();
            acc = acc + d + 1;
            i = i + 1;
        }
        proof {
            assert(frames@.take(frames@.len() as int) =~= frames@);
        }
        acc + self.offset_delta()
    }
}

impl StackMapFrameInfo {
    pub fn read(r: &mut Reader, tag: u8) -> (res: Result<StackMapFrameInfo, Error>)
        requires
            old(r).wf(),
        ensures
            final(r).bytes() == old(r).bytes(),
            final(r).wf(),
            old(r).position() <= final(r).position(),
            match spec_read_frame_info(old(r).bytes(), old(r).position(), tag) {
                Ok(v) => res matches Ok(c) && c == v.0 && final(r).position() == v.1,
                Err(e) => res matches Err(e2) && e2 == e,
            },
    {
        if tag <= 63 {
            Ok(StackMapFrameInfo::SameFrame)
        } else if tag <= 127 {
            Ok(StackMapFrameInfo::SameLocalsOneStackItemFrame(SameLocalsOneStackItemFrameInfo))
        } else if tag <= 246 {
            Err(Error::BadTagValue(tag))
        } else if tag == 247 {
            match r.read_u16() {
                Ok(offset_delta) => Ok(
                    StackMapFrameInfo::SameLocalsOneStackItemFrameExtended(
                        SameLocalsOneStackItemFrameExtendedInfo { offset_delta },
                    ),
                ),
                Err(e) => Err(e),
            }
        } else if tag <= 250 {
            match r.read_u16() {
                Ok(offset_delta) => Ok(
                    StackMapFrameInfo::ChopFrame(ChopFrameInfo { offset_delta }),
                ),
                Err(e) => Err(e),
            }
        } else if tag == 251 {
            match r.read_u16() {
                Ok(offset_delta) => Ok(
                    StackMapFrameInfo::SameFrameExtended(SameFrameExtendedInfo { offset_delta }),
                ),
                Err(e) => Err(e),
            }
        } else if tag <= 254 {
            match r.read_u16() {
                Ok(offset_delta) => Ok(
                    StackMapFrameInfo::AppendFrame(AppendFrameInfo { offset_delta }),
                ),
                Err(e) => Err(e),
            }
        } else {
            match r.read_u16() {
                Ok(offset_delta) => Ok(
                    StackMapFrameInfo::FullFrame(FullFrameInfo { offset_delta }),
                ),
                Err(e) => Err(e),
            }
        }
    }

    /// The frame kind's name.
    pub fn name(&self) -> (r: &'static str)
        ensures
            match *self {
                StackMapFrameInfo::SameFrame => r@ == "SameFrame"@,
                StackMapFrameInfo::SameLocalsOneStackItemFrame(_) => r@
                    == "SameLocalsOneStackItemFrame"@,
                StackMapFrameInfo::SameLocalsOneStackItemFrameExtended(_) => r@
                    == "SameLocalsOneStackItemFrameExtended"@,
                StackMapFrameInfo::ChopFrame(_) => r@ == "ChopFrame"@,
                StackMapFrameInfo::SameFrameExtended(_) => r@ == "SameFrameExtended"@,
                StackMapFrameInfo::AppendFrame(_) => r@ == "AppendFrame"@,
                StackMapFrameInfo::FullFrame(_) => r@ == "FullFrame"@,
            },
    {
        match *self {
            StackMapFrameInfo::SameFrame => "SameFrame",
            StackMapFrameInfo::SameLocalsOneStackItemFrame(_) => "SameLocalsOneStackItemFrame",
            StackMapFrameInfo::SameLocalsOneStackItemFrameExtended(_) => (
            "SameLocalsOneStackItemFrameExtended"),
            StackMapFrameInfo::ChopFrame(_) => "ChopFrame",
            StackMapFrameInfo::SameFrameExtended(_) => "SameFrameExtended",
            StackMapFrameInfo::AppendFrame(_) => "AppendFrame",
            StackMapFrameInfo::FullFrame(_) => "FullFrame",
        }
    }
}

} // verus!
