use vstd::prelude::*;

use crate::error::GovernanceError;
use crate::state::PythDataSource;

verus! {

/// The magic that opens every governance instruction: ASCII "PTGM".
pub open spec fn governance_magic() -> Seq<u8> {
    seq![0x50u8, 0x54u8, 0x47u8, 0x4du8]
}

/// The wire tag of the "set data sources" action.
pub const SET_DATA_SOURCES_TAG: u8 = 2;

/// Bytes taken by one data source on the wire: a chain id and a 32-byte emitter.
pub const DATA_SOURCE_WIRE_LEN: usize = 34;

/// The class of contract that a governance instruction addresses.
#[derive(Clone, Copy, Debug, PartialEq, Eq, Structural)]
pub enum GovernanceModule {
    /// The executor contract on the oracle's home chain.
    Executor,
    /// A target chain contract, such as this one.
    Target,
}

pub open spec fn module_of_byte(x: u8) -> Option<GovernanceModule> {
    if x == 0 {
        Some(GovernanceModule::Executor)
    } else if x == 1 {
        Some(GovernanceModule::Target)
    } else {
        None
    }
}

pub open spec fn module_byte(m: GovernanceModule) -> u8 {
    match m {
        GovernanceModule::Executor => 0,
        GovernanceModule::Target => 1,
    }
}

impl GovernanceModule {
    pub fn from_u8(x: u8) -> (r: Result<GovernanceModule, GovernanceError>)
        ensures
            match module_of_byte(x) {
                Some(m) => r == Ok::<GovernanceModule, GovernanceError>(m),
                None => r == Err::<GovernanceModule, GovernanceError>(GovernanceError::UnknownModule),
            },
    {
        match x {
            0 => Ok(GovernanceModule::Executor),
            1 => Ok(GovernanceModule::Target),
            _ => Err(GovernanceError::UnknownModule),
        }
    }

    pub fn to_u8(&self) -> (r: u8)
        ensures
            r == module_byte(*self),
            module_of_byte(r) == Some(*self),
    {
        match self {
            GovernanceModule::Executor => 0,
            GovernanceModule::Target => 1,
        }
    }
}


/// The action that an instruction asks of the target contract.
#[derive(Clone, Debug, PartialEq, Eq)]
pub enum GovernanceAction {
    /// Replace the whole set of authorized price data sources.
    SetDataSources { data_sources: Vec<PythDataSource> },
}

/// A decoded governance instruction.
#[derive(Clone, Debug, PartialEq, Eq)]
pub struct GovernanceInstruction {
    pub module: GovernanceModule,
    pub action: GovernanceAction,
    pub target_chain_id: u16,
}

/// The mathematical value of an instruction: module, target chain and the
/// (chain id, emitter) pairs of its single action.
pub struct InstructionModel {
    pub module: GovernanceModule,
    pub target_chain_id: u16,
    pub data_sources: Seq<(u16, Seq<u8>)>,
}

pub open spec fn sources_view(s: Seq<PythDataSource>) -> Seq<(u16, Seq<u8>)> {
    s.map_values(|d: PythDataSource| d@)
}

impl GovernanceInstruction {
    pub open spec fn data_sources(&self) -> Seq<PythDataSource> {
        match self.action {
            GovernanceAction::SetDataSources { data_sources } => data_sources@,
        }
    }

    pub open spec fn model(&self) -> InstructionModel {
        InstructionModel {
            module: self.module,
            target_chain_id: self.target_chain_id,
            data_sources: sources_view(self.data_sources()),
        }
    }
}

/// A big-endian 16-bit integer from its two bytes.
pub open spec fn be16(hi: u8, lo: u8) -> u16 {
    (hi as int * 256 + lo as int) as u16
}

pub open spec fn be16_bytes(x: u16) -> Seq<u8> {
    seq![(x / 256) as u8, (x % 256) as u8]
}

/// The wire length of an instruction that sets `n` data sources.
pub open spec fn wire_len(n: int) -> int {
    9 + 34 * n
}

/// The data source that starts at slot `i` of an instruction's payload.
pub open spec fn source_at(b: Seq<u8>, i: int) -> (u16, Seq<u8>) {
    (be16(b[9 + 34 * i], b[10 + 34 * i]), b.subrange(11 + 34 * i, 43 + 34 * i))
}

/// What the bytes `b` decode to, field by field in wire order.
pub open spec fn decode_spec(b: Seq<u8>) -> Result<InstructionModel, GovernanceError> {
    if b.len() < 4 || b.subrange(0, 4) != governance_magic() {
        Err(GovernanceError::MagicMismatch)
    } else if b.len() < 5 {
        Err(GovernanceError::Truncated)
    } else if module_of_byte(b[4]) is None {
        Err(GovernanceError::UnknownModule)
    } else if b.len() < 8 {
        Err(GovernanceError::Truncated)
    } else if b[5] != SET_DATA_SOURCES_TAG {
        Err(GovernanceError::UnknownActionTag)
    } else if b.len() < 9 || b.len() < wire_len(b[8] as int) {
        Err(GovernanceError::Truncated)
    } else if b.len() > wire_len(b[8] as int) {
        Err(GovernanceError::TrailingBytes)
    } else {
        Ok(
            InstructionModel {
                module: module_of_byte(b[4])->Some_0,
                target_chain_id: be16(b[6], b[7]),
                data_sources: Seq::new(b[8] as nat, |i: int| source_at(b, i)),
            },
        )
    }
}

pub open spec fn encode_source(s: (u16, Seq<u8>)) -> Seq<u8> {
    be16_bytes(s.0) + s.1
}

pub open spec fn encode_sources(s: Seq<(u16, Seq<u8>)>) -> Seq<u8>
    decreases s.len(),
{
    if s.len() == 0 {
        Seq::empty()
    } else {
        encode_sources(s.drop_last()) + encode_source(s.last())
    }
}

/// The bytes that stand before the data sources.
pub open spec fn encode_header(m: InstructionModel) -> Seq<u8> {
    governance_magic() + seq![module_byte(m.module), SET_DATA_SOURCES_TAG] + be16_bytes(
        m.target_chain_id,
    ) + seq![m.data_sources.len() as u8]
}

/// The wire form of an instruction.
pub open spec fn encode_spec(m: InstructionModel) -> Seq<u8> {
    encode_header(m) + encode_sources(m.data_sources)
}

/// An instruction that the wire format can carry: every emitter is 32 bytes,
/// and the count fits in one byte.
pub open spec fn encodable(m: InstructionModel) -> bool {
    &&& m.data_sources.len() <= 255
    &&& forall|i: int| 0 <= i < m.data_sources.len() ==> (#[trigger] m.data_sources[i]).1.len() == 32
}

pub open spec fn all_emitters_sized(s: Seq<(u16, Seq<u8>)>) -> bool {
    forall|i: int| 0 <= i < s.len() ==> (#[trigger] s[i]).1.len() == 32
}

/// Copies `b[start..end]` into a new vector.
fn copy_range(b: &[u8], start: usize, end: usize) -> (r: Vec<u8>)
    requires
        start <= end <= b@.len(),
    ensures
        r@ == b@.subrange(start as int, end as int),
{
    let mut r: Vec<u8> = Vec::new();
    let mut i: usize = start;
    while i < end
        invariant
            start <= i <= end <= b@.len(),
            r@ == b@.subrange(start as int, i as int),
        decreases end - i,
    {
        r.push(b[i]);
        i = i + 1;
    }
    r
}

fn read_be16(b: &[u8], at: usize) -> (r: u16)
    requires
        at + 1 < b@.len(),
    ensures
        r == be16(b@[at as int], b@[at + 1]),
{
    (b[at] as u16) * 256 + (b[at + 1] as u16)
}

impl GovernanceInstruction {
    /// Decodes an instruction; the input must be consumed exactly.
    pub fn deserialize(bytes: &[u8]) -> (r: Result<GovernanceInstruction, GovernanceError>)
        ensures
            match decode_spec(bytes@) {
                Ok(m) => r is Ok && r->Ok_0.model() == m,
                Err(e) => r == Err::<GovernanceInstruction, GovernanceError>(e),
            },
    {
        let len = bytes.len();
        if len < 4 || bytes[0] != 0x50u8 || bytes[1] != 0x54u8 || bytes[2] != 0x47u8 || bytes[3]
            != 0x4du8 {
            proof {
                if len >= 4 {
                    assert(bytes@.subrange(0, 4)[0] == bytes@[0]);
                    assert(bytes@.subrange(0, 4)[1] == bytes@[1]);
                    assert(bytes@.subrange(0, 4)[2] == bytes@[2]);
                    assert(bytes@.subrange(0, 4)[3] == bytes@[3]);
                }
            }
            return Err(GovernanceError::MagicMismatch);
        }
        assert(bytes@.subrange(0, 4) =~= governance_magic());
        if len < 5 {
            return Err(GovernanceError::Truncated);
        }
        let module = match GovernanceModule::from_u8(bytes[4]) {
            Ok(m) => m,
            Err(e) => return Err(e),
        };
        if len < 8 {
            return Err(GovernanceError::Truncated);
        }
        if bytes[5] != SET_DATA_SOURCES_TAG {
            return Err(GovernanceError::UnknownActionTag);
        }
        let target_chain_id = read_be16(bytes, 6);
        if len < 9 {
            return Err(GovernanceError::Truncated);
        }
        let count = bytes[8] as usize;
        let total = 9 + DATA_SOURCE_WIRE_LEN * count;
        if len < total {
            return Err(GovernanceError::Truncated);
        }
        if len > total {
            return Err(GovernanceError::TrailingBytes);
        }
        let mut data_sources: Vec<PythDataSource> = Vec::new();
        let mut i: usize = 0;
        while i < count
            invariant
                count == bytes@[8] as usize,
                len == bytes@.len(),
                len == 9 + 34 * count,
                i <= count,
                data_sources@.len() == i,
                forall|j: int| 0 <= j < i ==> (#[trigger] data_sources@[j])@ == source_at(bytes@, j),
            decreases count - i,
        {
            let at = 9 + DATA_SOURCE_WIRE_LEN * i;
            let chain_id = read_be16(bytes, at);
            let emitter = copy_range(bytes, at + 2, at + 34);
            data_sources.push(PythDataSource { emitter, chain_id });
            i = i + 1;
        }
        let ins = GovernanceInstruction {
            module,
            action: GovernanceAction::SetDataSources { data_sources },
            target_chain_id,
        };
        assert(sources_view(ins.data_sources()) =~= Seq::new(
            bytes@[8] as nat,
            |i: int| source_at(bytes@, i),
        ));
        Ok(ins)
    }
}

fn push_be16(out: &mut Vec<u8>, x: u16)
    ensures
        final(out)@ == old(out)@ + be16_bytes(x),
{
    out.push((x / 256) as u8);
    out.push((x % 256) as u8);
    assert(final(out)@ =~= old(out)@ + be16_bytes(x));
}

impl GovernanceInstruction {
    /// Encodes the instruction; fails where the wire format cannot carry it.
    pub fn serialize(&self) -> (r: Result<Vec<u8>, GovernanceError>)
        ensures
            self.data_sources().len() > 255 ==> r == Err::<Vec<u8>, GovernanceError>(
                GovernanceError::TooManyDataSources,
            ),
            self.data_sources().len() <= 255 && !all_emitters_sized(self.model().data_sources)
                ==> r == Err::<Vec<u8>, GovernanceError>(GovernanceError::InvalidEmitterLength),
            encodable(self.model()) ==> r is Ok && r->Ok_0@ == encode_spec(self.model()),
    {
        let data_sources = match &self.action {
            GovernanceAction::SetDataSources { data_sources } => data_sources,
        };
        let ghost m = self.model();
        if data_sources.len() > 255 {
            return Err(GovernanceError::TooManyDataSources);
        }
        let mut buf: Vec<u8> = Vec::new();
        buf.push(0x50u8);
        buf.push(0x54u8);
        buf.push(0x47u8);
        buf.push(0x4du8);
        buf.push(self.module.to_u8());
        buf.push(SET_DATA_SOURCES_TAG);
        push_be16(&mut buf, self.target_chain_id);
        buf.push(data_sources.len() as u8);
        assert(buf@ =~= encode_header(m));
        let mut i: usize = 0;
        while i < data_sources.len()
            invariant
                m == self.model(),
                data_sources@ == self.data_sources(),
                i <= data_sources@.len(),
                data_sources@.len() <= 255,
                forall|j: int| 0 <= j < i ==> (#[trigger] m.data_sources[j]).1.len() == 32,
                buf@ == encode_header(m) + encode_sources(m.data_sources.take(i as int)),
            decreases data_sources.len() - i,
        {
            let source = &data_sources[i];
            if source.emitter.len() != 32 {
                assert(m.data_sources[i as int].1.len() != 32);
                return Err(GovernanceError::InvalidEmitterLength);
            }
            push_be16(&mut buf, source.chain_id);
            let mut k: usize = 0;
            let ghost before = buf@;
            while k < 32
                invariant
                    k <= 32,
                    source.emitter@.len() == 32,
                    buf@ == before + source.emitter@.take(k as int),
                decreases 32 - k,
            {
                buf.push(source.emitter[k]);
                k = k + 1;
                assert(buf@ =~= before + source.emitter@.take(k as int));
            }
            assert(source.emitter@.take(32) =~= source.emitter@);
            assert(m.data_sources.take(i + 1).drop_last() =~= m.data_sources.take(i as int));
            assert(m.data_sources[i as int] == source@);
            i = i + 1;
            assert(buf@ =~= encode_header(m) + encode_sources(m.data_sources.take(i as int)));
        }
        assert(m.data_sources.take(i as int) =~= m.data_sources);
        Ok(buf)
    }
}

proof fn lemma_encode_sources_len(s: Seq<(u16, Seq<u8>)>)
    requires
        all_emitters_sized(s),
    ensures
        encode_sources(s).len() == 34 * s.len(),
    decreases s.len(),
{
    if s.len() > 0 {
        assert(all_emitters_sized(s.drop_last())) by {
            assert forall|i: int| 0 <= i < s.drop_last().len() implies (
            #[trigger] s.drop_last()[i]).1.len() == 32 by {
                assert(s.drop_last()[i] == s[i]);
            }
        }
        lemma_encode_sources_len(s.drop_last());
        assert(s.last() == s[s.len() - 1]);
    }
}

proof fn lemma_encode_sources_slot(s: Seq<(u16, Seq<u8>)>, i: int)
    requires
        all_emitters_sized(s),
        0 <= i < s.len(),
    ensures
        encode_sources(s).subrange(34 * i, 34 * i + 34) == encode_source(s[i]),
    decreases s.len(),
{
    let p = s.drop_last();
    assert(all_emitters_sized(p)) by {
        assert forall|j: int| 0 <= j < p.len() implies (#[trigger] p[j]).1.len() == 32 by {
            assert(p[j] == s[j]);
        }
    }
    lemma_encode_sources_len(p);
    assert(s.last() == s[s.len() - 1]);
    let e = encode_sources(s);
    assert(e == encode_sources(p) + encode_source(s.last()));
    if i == s.len() - 1 {
        assert(e.subrange(34 * i, 34 * i + 34) =~= encode_source(s[i]));
    } else {
        lemma_encode_sources_slot(p, i);
        assert(p[i] == s[i]);
        assert(e.subrange(34 * i, 34 * i + 34) =~= encode_sources(p).subrange(34 * i, 34 * i + 34));
    }
}

proof fn lemma_be16_round_trip(x: u16)
    ensures
        be16(be16_bytes(x)[0], be16_bytes(x)[1]) == x,
{
    assert((x / 256) as u8 as int == x as int / 256);
    assert((x % 256) as u8 as int == x as int % 256);
}

/// Decoding the encoding of any instruction that the wire format can carry
/// gives back that instruction.
pub proof fn lemma_round_trip(m: InstructionModel)
    requires
        encodable(m),
    ensures
        decode_spec(encode_spec(m)) == Ok::<InstructionModel, GovernanceError>(m),
{
    let s = m.data_sources;
    let b = encode_spec(m);
    let h = encode_header(m);
    assert(all_emitters_sized(s));
    lemma_encode_sources_len(s);
    assert(h.len() == 9);
    assert(b.subrange(0, 4) =~= governance_magic());
    assert(b[4] == module_byte(m.module));
    assert(b[5] == SET_DATA_SOURCES_TAG);
    assert(b[8] == s.len() as u8);
    assert(b[8] as int == s.len());
    assert(be16(b[6], b[7]) == m.target_chain_id) by {
        lemma_be16_round_trip(m.target_chain_id);
    }
    assert(module_of_byte(b[4]) == Some(m.module));
    let d = Seq::new(b[8] as nat, |i: int| source_at(b, i));
    assert forall|i: int| 0 <= i < s.len() implies #[trigger] d[i] == s[i] by {
        lemma_encode_sources_slot(s, i);
        let e = encode_sources(s);
        let slot = encode_source(s[i]);
        assert(s[i].1.len() == 32);
        assert(b[9 + 34 * i] == e[34 * i]);
        assert(b[10 + 34 * i] == e[34 * i + 1]);
        assert(e[34 * i] == e.subrange(34 * i, 34 * i + 34)[0]);
        assert(e[34 * i + 1] == e.subrange(34 * i, 34 * i + 34)[1]);
        assert(slot[0] == be16_bytes(s[i].0)[0]);
        assert(slot[1] == be16_bytes(s[i].0)[1]);
        lemma_be16_round_trip(s[i].0);
        assert(b.subrange(11 + 34 * i, 43 + 34 * i) =~= s[i].1) by {
            assert forall|k: int| 0 <= k < 32 implies b.subrange(11 + 34 * i, 43 + 34 * i)[k]
                == s[i].1[k] by {
                assert(b[11 + 34 * i + k] == e[34 * i + 2 + k]);
                assert(e[34 * i + 2 + k] == e.subrange(34 * i, 34 * i + 34)[2 + k]);
                assert(slot[2 + k] == s[i].1[k]);
            }
        }
    }
    assert(d =~= s);
}

/// Any byte appended to an instruction that decodes makes it fail to decode.
pub proof fn lemma_trailing_byte_rejected(b: Seq<u8>, extra: u8)
    requires
        decode_spec(b) is Ok,
    ensures
        decode_spec(b.push(extra)) == Err::<InstructionModel, GovernanceError>(
            GovernanceError::TrailingBytes,
        ),
{
    let c = b.push(extra);
    assert(c.subrange(0, 4) =~= b.subrange(0, 4));
    assert(c[4] == b[4] && c[5] == b[5] && c[8] == b[8]);
}

/// A blob that does not open with the governance magic is rejected as such,
/// whatever follows.
pub proof fn lemma_magic_gate(b: Seq<u8>)
    requires
        !(b.len() >= 4 && b.subrange(0, 4) == governance_magic()),
    ensures
        decode_spec(b) == Err::<InstructionModel, GovernanceError>(GovernanceError::MagicMismatch),
{
}

} // verus!
