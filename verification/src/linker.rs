//! Bytecode linking: substituting library placeholders with addresses.
//!
//! Raw build-artifact bytecode may embed named references to library
//! contracts whose addresses are only known once those libraries are
//! deployed.  Here such bytecode is held as a sequence of segments, each
//! either literal bytes or a placeholder for one library; the build
//! artifact's fully-qualified library names map one-to-one to
//! [`ContractId`] values at the boundary where the artifact is decoded.
//! Linking substitutes every placeholder with the concrete address supplied
//! for it and fails, naming the library, if any placeholder has no supplied
//! address.  The result type holds plain bytes only, so linked bytecode can
//! never contain an unresolved placeholder.

use vstd::prelude::*;

use crate::address::Address;
use crate::contract_id::ContractId;
use crate::registry::AddressRegistry;

verus! {

/// One piece of raw bytecode.
#[derive(Debug)]
pub enum Segment {
    /// Literal bytes, emitted unchanged.
    Code(Vec<u8>),
    /// A placeholder standing for the address of the named library.
    LibraryRef(ContractId),
}

/// Mathematical value of a [`Segment`].
pub enum SegmentV {
    Code(Seq<u8>),
    LibraryRef(ContractId),
}

impl View for Segment {
    type V = SegmentV;

    closed spec fn view(&self) -> SegmentV {
        match self {
            Segment::Code(bytes) => SegmentV::Code(bytes@),
            Segment::LibraryRef(id) => SegmentV::LibraryRef(*id),
        }
    }
}

/// Raw contract bytecode containing zero or more library placeholders.
#[derive(Debug)]
pub struct UnlinkedBytecode {
    segments: Vec<Segment>,
}

impl View for UnlinkedBytecode {
    type V = Seq<SegmentV>;

    closed spec fn view(&self) -> Seq<SegmentV> {
        self.segments@.map_values(|s: Segment| s@)
    }
}

impl UnlinkedBytecode {
    /// Bytecode with no segments yet.
    pub fn new() -> (r: UnlinkedBytecode)
        ensures
            r@ == Seq::<SegmentV>::empty(),
    {
        let r = UnlinkedBytecode { segments: Vec::new() };
        proof {
            assert(r@ =~= Seq::<SegmentV>::empty());
        }
        r
    }

    /// Appends literal bytes.
    pub fn push_code(&mut self, bytes: Vec<u8>)
        ensures
            final(self)@ == old(self)@.push(SegmentV::Code(bytes@)),
    {
        self.segments.push(Segment::Code(bytes));
        proof {
            assert(self@ =~= old(self)@.push(SegmentV::Code(bytes@)));
        }
    }

    /// Appends a placeholder for the named library.
    pub fn push_library_ref(&mut self, id: ContractId)
        ensures
            final(self)@ == old(self)@.push(SegmentV::LibraryRef(id)),
    {
        self.segments.push(Segment::LibraryRef(id));
        proof {
            assert(self@ =~= old(self)@.push(SegmentV::LibraryRef(id)));
        }
    }
}

/// Fully linked, deployable bytecode: plain bytes, no placeholders.
#[derive(Debug)]
pub struct LinkedBytecode {
    bytes: Vec<u8>,
}

impl View for LinkedBytecode {
    type V = Seq<u8>;

    closed spec fn view(&self) -> Seq<u8> {
        self.bytes@
    }
}

impl LinkedBytecode {
    /// The deployable bytes.
    pub fn bytes(&self) -> (r: &Vec<u8>)
        ensures
            r@ == self@,
    {
        &self.bytes
    }
}

/// Linking failure: a placeholder remained whose library had no supplied
/// address.  `missing` names the library that was expected.
#[derive(Debug)]
pub struct LinkError {
    pub missing: ContractId,
}

/// Whether a segment needs no substitution or has an address supplied.
pub open spec fn seg_resolved(s: SegmentV, libs: Map<ContractId, Seq<u8>>) -> bool {
    match s {
        SegmentV::Code(_) => true,
        SegmentV::LibraryRef(id) => libs.contains_key(id),
    }
}

/// Whether every placeholder has an address supplied.
pub open spec fn all_resolved(segs: Seq<SegmentV>, libs: Map<ContractId, Seq<u8>>) -> bool {
    forall|i: int| 0 <= i < segs.len() ==> seg_resolved(#[trigger] segs[i], libs)
}

/// The bytes one segment contributes to the linked output.
pub open spec fn seg_bytes(s: SegmentV, libs: Map<ContractId, Seq<u8>>) -> Seq<u8> {
    match s {
        SegmentV::Code(bytes) => bytes,
        SegmentV::LibraryRef(id) => libs[id],
    }
}

/// The fully linked output: each literal segment unchanged, each placeholder
/// replaced by the supplied address of its library.
pub open spec fn linked_bytes(segs: Seq<SegmentV>, libs: Map<ContractId, Seq<u8>>) -> Seq<u8>
    decreases segs.len(),
{
    if segs.len() == 0 {
        Seq::empty()
    } else {
        linked_bytes(segs.drop_last(), libs) + seg_bytes(segs.last(), libs)
    }
}

/// The library named by the first placeholder without a supplied address.
pub open spec fn first_unresolved(segs: Seq<SegmentV>, libs: Map<ContractId, Seq<u8>>) -> ContractId
    decreases segs.len(),
{
    if segs.len() == 0 {
        arbitrary()
    } else if !seg_resolved(segs.first(), libs) {
        segs.first()->LibraryRef_0
    } else {
        first_unresolved(segs.drop_first(), libs)
    }
}

/// If everything before position `i` is resolved and the segment at `i` is
/// an unresolved placeholder for `id`, then `id` is the first unresolved
/// library.
proof fn lemma_first_unresolved_at(
    segs: Seq<SegmentV>,
    libs: Map<ContractId, Seq<u8>>,
    i: int,
    id: ContractId,
)
    requires
        0 <= i < segs.len(),
        forall|j: int| 0 <= j < i ==> seg_resolved(#[trigger] segs[j], libs),
        segs[i] == SegmentV::LibraryRef(id),
        !libs.contains_key(id),
    ensures
        first_unresolved(segs, libs) == id,
    decreases i,
{
    if i == 0 {
        assert(segs.first() == segs[0]);
    } else {
        assert(seg_resolved(segs[0], libs));
        let rest = segs.drop_first();
        assert(rest[i - 1] == segs[i]);
        assert(forall|j: int| 0 <= j < i - 1 ==> seg_resolved(#[trigger] rest[j], libs));
        lemma_first_unresolved_at(rest, libs, i - 1, id);
    }
}

/// Appends the contents of `src` to `dst`.
fn append_bytes(dst: &mut Vec<u8>, src: &Vec<u8>)
    ensures
        final(dst)@ == old(dst)@ + src@,
{
    let mut j: usize = 0;
    while j < src.len()
        invariant
            0 <= j <= src@.len(),
            dst@ == old(dst)@ + src@.take(j as int),
        decreases src@.len() - j,
    {
        dst.push(src[j]);
        proof {
            assert(src@.take(j + 1int) =~= src@.take(j as int).push(src@[j as int]));
            assert(dst@ =~= old(dst)@ + src@.take(j + 1int));
        }
        j += 1;
    }
    proof {
        assert(src@.take(src@.len() as int) =~= src@);
    }
}

/// Substitutes every library placeholder in `unlinked` with the address
/// supplied for it in `libraries`.
///
/// Succeeds exactly when every placeholder's library has a supplied
/// address; the result is then pinned to [`linked_bytes`], so linking is
/// deterministic and side-effect-free.  Otherwise it fails, naming the
/// first library whose placeholder could not be resolved.
pub fn link(unlinked: &UnlinkedBytecode, libraries: &AddressRegistry) -> (r: Result<
    LinkedBytecode,
    LinkError,
>)
    requires
        libraries.wf(),
    ensures
        r is Ok <==> all_resolved(unlinked@, libraries@),
        r is Ok ==> r->Ok_0@ == linked_bytes(unlinked@, libraries@),
        r is Err ==> {
            &&& r->Err_0.missing == first_unresolved(unlinked@, libraries@)
            &&& !libraries@.contains_key(r->Err_0.missing)
            &&& exists|i: int|
                0 <= i < unlinked@.len() && unlinked@[i] == SegmentV::LibraryRef(
                    r->Err_0.missing,
                )
        },
{
    let ghost segs = unlinked@;
    let ghost libs = libraries@;
    let n = unlinked.segments.len();
    let mut out: Vec<u8> = Vec::new();
    let mut i: usize = 0;
    proof {
        assert(segs.take(0int) =~= Seq::<SegmentV>::empty());
    }
    while i < n
        invariant
            libraries.wf(),
            segs == unlinked@,
            libs == libraries@,
            n == segs.len(),
            0 <= i <= n,
            forall|j: int| 0 <= j < i ==> seg_resolved(#[trigger] segs[j], libs),
            out@ == linked_bytes(segs.take(i as int), libs),
        decreases n - i,
    {
        let ghost pre = segs.take(i as int);
        let ghost cur = segs.take(i + 1int);
        proof {
            assert(cur.drop_last() =~= pre);
            assert(cur.last() == segs[i as int]);
        }
        match &unlinked.segments[i] {
            Segment::Code(bytes) => {
                append_bytes(&mut out, bytes);
            },
            Segment::LibraryRef(id) => {
                match libraries.get(*id) {
                    Some(addr) => {
                        let addr_bytes = addr.to_bytes();
                        append_bytes(&mut out, &addr_bytes);
                    },
                    None => {
                        proof {
                            lemma_first_unresolved_at(segs, libs, i as int, *id);
                        }
                        return Err(LinkError { missing: *id });
                    },
                }
            },
        }
        i += 1;
    }
    proof {
        assert(segs.take(n as int) =~= segs);
    }
    Ok(LinkedBytecode { bytes: out })
}

} // verus!
