//! The message a client sends to open a channel: who it is and what kind of
//! server it is, with the rules of its protobuf encoding.
use vstd::prelude::*;
use vstd::arithmetic::power2::{pow2, lemma2_to64, lemma_pow2_adds, lemma_pow2_strictly_increases};

verus! {

/// The kind of server at the other end of a channel.
#[derive(Clone, Copy, PartialEq, Eq, Structural, Debug, Hash)]
pub enum ChannelClientType {
    LoginServer,
    PlatServer,
    ExploreServer,
    UnDefined,
}

impl ChannelClientType {
    /// The number that stands for the kind on the wire.
    pub open spec fn spec_value(self) -> i32 {
        match self {
            ChannelClientType::LoginServer => 0,
            ChannelClientType::PlatServer => 1,
            ChannelClientType::ExploreServer => 2,
            ChannelClientType::UnDefined => 9,
        }
    }

    /// The number that stands for the kind on the wire.
    pub fn value(&self) -> (v: i32)
        ensures
            v == self.spec_value(),
    {
        match self {
            ChannelClientType::LoginServer => 0,
            ChannelClientType::PlatServer => 1,
            ChannelClientType::ExploreServer => 2,
            ChannelClientType::UnDefined => 9,
        }
    }

    /// The kind that `value` stands for, if any.
    pub open spec fn spec_from_i32(value: i32) -> Option<ChannelClientType> {
        if value == 0 {
            Some(ChannelClientType::LoginServer)
        } else if value == 1 {
            Some(ChannelClientType::PlatServer)
        } else if value == 2 {
            Some(ChannelClientType::ExploreServer)
        } else if value == 9 {
            Some(ChannelClientType::UnDefined)
        } else {
            None
        }
    }

    /// The kind that `value` stands for, if any.
    pub fn from_i32(value: i32) -> (r: Option<ChannelClientType>)
        ensures
            r == Self::spec_from_i32(value),
            r matches Some(k) ==> k.spec_value() == value,
            r is None <==> (forall|k: ChannelClientType| k.spec_value() != value),
    {
        let r = match value {
            0 => Some(ChannelClientType::LoginServer),
            1 => Some(ChannelClientType::PlatServer),
            2 => Some(ChannelClientType::ExploreServer),
            9 => Some(ChannelClientType::UnDefined),
            _ => None,
        };
        proof {
            if let Some(k) = r {
                assert(k.spec_value() == value);
            }
            if r is None {
                assert forall|k: ChannelClientType| k.spec_value() != value by {
                    match k {
                        ChannelClientType::LoginServer => {},
                        ChannelClientType::PlatServer => {},
                        ChannelClientType::ExploreServer => {},
                        ChannelClientType::UnDefined => {},
                    }
                }
            }
        }
        r
    }

    /// All kinds, in the order of their numbers.
    pub fn values() -> (v: Vec<ChannelClientType>)
        ensures
            v@ == seq![
                ChannelClientType::LoginServer,
                ChannelClientType::PlatServer,
                ChannelClientType::ExploreServer,
                ChannelClientType::UnDefined,
            ],
    {
        let mut v = Vec::with_capacity(4);
        v.push(ChannelClientType::LoginServer);
        v.push(ChannelClientType::PlatServer);
        v.push(ChannelClientType::ExploreServer);
        v.push(ChannelClientType::UnDefined);
        v
    }
}

/// Every kind reads back from its number, and a number that reads as a kind
/// is that kind's number.
pub proof fn law_value_round_trip(k: ChannelClientType, value: i32)
    ensures
        ChannelClientType::spec_from_i32(k.spec_value()) == Some(k),
        ChannelClientType::spec_from_i32(value) matches Some(j) ==> j.spec_value() == value,
{
}

impl Default for ChannelClientType {
    fn default() -> (k: ChannelClientType)
        ensures
            k == ChannelClientType::LoginServer,
    {
        ChannelClientType::LoginServer
    }
}

/// Number of bytes of a varint: one per started group of 7 bits.
pub open spec fn varint_len(v: nat) -> nat
    decreases v,
{
    if v < 128 {
        1
    } else {
        1 + varint_len(v / 128)
    }
}

/// A varint of a value below `2^(7k)` takes at most `k` bytes.
pub proof fn lemma_varint_len_bound(v: nat, k: nat)
    requires
        1 <= k,
        v < pow2(7 * k),
    ensures
        varint_len(v) <= k,
    decreases k,
{
    lemma2_to64();
    if v >= 128 {
        if k == 1 {
            assert(false);
        }
        let rest = pow2((7 * k - 7) as nat);
        lemma_pow2_adds(7, (7 * k - 7) as nat);
        assert(7 + (7 * k - 7) == 7 * k);
        assert(pow2(7 * k) == 128 * rest);
        assert(v / 128 < rest) by (nonlinear_arith)
            requires
                v < 128 * rest,
        ;
        assert(7 * (k - 1) == 7 * k - 7);
        lemma_varint_len_bound(v / 128, (k - 1) as nat);
    }
}

/// A 64-bit value takes from 1 to 10 bytes.
pub proof fn lemma_varint_len_u64(v: u64)
    ensures
        1 <= varint_len(v as nat) <= 10,
{
    lemma2_to64();
    lemma_pow2_strictly_increases(64, 70);
    lemma_varint_len_bound(v as nat, 10);
}

/// Number of bytes of a varint field: its tag (the field number times 8,
/// plus the wire type that `protobuf::rt::tag_size` counts, 1) and its value.
pub open spec fn varint_field_len(field_number: nat, value: nat) -> nat {
    varint_len(field_number * 8 + 1) + varint_len(value)
}

/// `protobuf::rt::value_size` for a varint field: the bytes of the tag and
/// of the value.
#[verifier::external_body]
fn varint_field_size(field_number: u32, value: u64) -> (n: u32)
    requires
        0 < field_number <= 0x1fff_ffff,
    ensures
        n == varint_field_len(field_number as nat, value as nat),
{
    protobuf::rt::value_size(field_number, value, protobuf::wire_format::WireType::WireTypeVarint)
}

/// The wire types of protobuf.
#[derive(Clone, Copy, PartialEq, Eq, Structural, Debug)]
pub enum WireKind {
    Varint,
    Fixed64,
    LengthDelimited,
    StartGroup,
    EndGroup,
    Fixed32,
}

/// What a field read from the wire is for.
#[derive(Clone, Copy, PartialEq, Eq, Structural, Debug)]
pub enum FieldRead {
    /// Field 1 as a varint: the client id.
    ClientId,
    /// Field 2 as a varint: the client type.
    ClientType,
    /// Field 1 or 2 with another wire type: the message is malformed.
    WrongWireType,
    /// Any other field: kept as an unknown field (or skipped, for a group).
    Unknown,
}

/// The message that opens a channel.
#[derive(Clone, Copy, PartialEq, Eq, Structural, Debug)]
pub struct MsgChannelConnect {
    pub client_id: u64,
    pub client_type: ChannelClientType,
}

impl Default for MsgChannelConnect {
    fn default() -> (m: MsgChannelConnect)
        ensures
            m.client_id == 0,
            m.client_type == ChannelClientType::LoginServer,
    {
        MsgChannelConnect { client_id: 0, client_type: ChannelClientType::LoginServer }
    }
}

/// The fields of a message take at most 22 bytes: two one-byte tags and two
/// varints of at most 10 bytes each.
pub proof fn lemma_known_fields_len_bound(m: MsgChannelConnect)
    ensures
        m.known_fields_len() <= 22,
{
    lemma_varint_len_u64(m.client_id);
    lemma_varint_len_u64((m.client_type.spec_value() as i64) as u64);
    assert(varint_len(9) == 1);
    assert(varint_len(17) == 1);
}

impl MsgChannelConnect {
    /// The bytes of the fields that are written: the client id when it is
    /// not 0 and the client type when it is not `LoginServer` (its number,
    /// sign-extended to 64 bits, as a varint).
    pub open spec fn known_fields_len(self) -> nat {
        (if self.client_id != 0 {
            varint_field_len(1, self.client_id as nat)
        } else {
            0
        }) + (if self.client_type != ChannelClientType::LoginServer {
            varint_field_len(2, (self.client_type.spec_value() as i64) as u64 as nat)
        } else {
            0
        })
    }

    /// An empty message.
    pub fn new() -> (m: MsgChannelConnect)
        ensures
            m.client_id == 0,
            m.client_type == ChannelClientType::LoginServer,
    {
        MsgChannelConnect::default()
    }

    /// The client id.
    pub fn get_client_id(&self) -> (v: u64)
        ensures
            v == self.client_id,
    {
        self.client_id
    }

    /// Resets the client id to 0.
    pub fn clear_client_id(&mut self)
        ensures
            final(self).client_id == 0,
            final(self).client_type == old(self).client_type,
    {
        self.client_id = 0;
    }

    /// Sets the client id.
    pub fn set_client_id(&mut self, v: u64)
        ensures
            final(self).client_id == v,
            final(self).client_type == old(self).client_type,
    {
        self.client_id = v;
    }

    /// The client type.
    pub fn get_client_type(&self) -> (v: ChannelClientType)
        ensures
            v == self.client_type,
    {
        self.client_type
    }

    /// Resets the client type to `LoginServer`.
    pub fn clear_client_type(&mut self)
        ensures
            final(self).client_type == ChannelClientType::LoginServer,
            final(self).client_id == old(self).client_id,
    {
        self.client_type = ChannelClientType::LoginServer;
    }

    /// Sets the client type.
    pub fn set_client_type(&mut self, v: ChannelClientType)
        ensures
            final(self).client_type == v,
            final(self).client_id == old(self).client_id,
    {
        self.client_type = v;
    }

    /// Resets both fields.
    pub fn clear(&mut self)
        ensures
            final(self).client_id == 0,
            final(self).client_type == ChannelClientType::LoginServer,
    {
        self.client_id = 0;
        self.client_type = ChannelClientType::LoginServer;
    }

    /// Every message is complete: it has no required field.
    pub fn is_initialized(&self) -> (r: bool)
        ensures
            r,
    {
        true
    }

    /// The fields that are written, in order: the client id unless it is 0,
    /// then the number of the client type unless it is `LoginServer`.
    pub open spec fn spec_fields_to_write(self) -> (Option<u64>, Option<i32>) {
        (
            if self.client_id != 0 {
                Some(self.client_id)
            } else {
                None
            },
            if self.client_type != ChannelClientType::LoginServer {
                Some(self.client_type.spec_value())
            } else {
                None
            },
        )
    }

    /// The varint fields that writing the message puts on the wire, in
    /// order, as (field number, value): the client id as it is, the number of
    /// the client type sign-extended to 64 bits.
    pub open spec fn written_varints(self) -> Seq<(u32, u64)> {
        let (id, kind) = self.spec_fields_to_write();
        (match id {
            Some(v) => seq![(1u32, v)],
            None => Seq::empty(),
        }) + (match kind {
            Some(k) => seq![(2u32, (k as i64) as u64)],
            None => Seq::empty(),
        })
    }

    /// The message after taking the number `value` for the client type, and
    /// whether it is the number of a kind.
    pub open spec fn spec_merge_client_type(self, value: i32) -> (MsgChannelConnect, bool) {
        match ChannelClientType::spec_from_i32(value) {
            Some(k) => (MsgChannelConnect { client_type: k, ..self }, true),
            None => (self, false),
        }
    }

    /// The message after taking the varint `raw` read for `field_number`,
    /// and the varint to keep with the unknown fields, if any.
    pub open spec fn spec_merge_varint(self, field_number: u32, raw: u64) -> (MsgChannelConnect, Option<u64>) {
        match spec_field_read(field_number, WireKind::Varint) {
            FieldRead::ClientId => (MsgChannelConnect { client_id: raw, ..self }, None),
            FieldRead::ClientType => {
                let value = raw as i32;
                let (n, known) = self.spec_merge_client_type(value);
                if known {
                    (n, None)
                } else {
                    (n, Some((value as i64) as u64))
                }
            },
            _ => (self, Some(raw)),
        }
    }

    /// The message after taking the varint fields `fields` in order.
    pub open spec fn merged_varints(self, fields: Seq<(u32, u64)>) -> MsgChannelConnect
        decreases fields.len(),
    {
        if fields.len() == 0 {
            self
        } else {
            self.spec_merge_varint(fields[0].0, fields[0].1).0.merged_varints(fields.drop_first())
        }
    }

    /// The fields that are written, in order: the client id unless it is 0,
    /// then the number of the client type unless it is `LoginServer`.
    pub fn fields_to_write(&self) -> (r: (Option<u64>, Option<i32>))
        ensures
            r == self.spec_fields_to_write(),
            r.0 == (if self.client_id != 0 { Some(self.client_id) } else { None::<u64> }),
            r.1 == (if self.client_type != ChannelClientType::LoginServer {
                Some(self.client_type.spec_value())
            } else {
                None::<i32>
            }),
    {
        let id = if self.client_id != 0 {
            Some(self.client_id)
        } else {
            None
        };
        let kind = if self.client_type != ChannelClientType::LoginServer {
            Some(self.client_type.value())
        } else {
            None
        };
        (id, kind)
    }

    /// The encoded size of the message: the bytes of the fields that are
    /// written and the `unknown_fields_size` bytes of the unknown fields.
    pub fn compute_size(&self, unknown_fields_size: u32) -> (n: u32)
        requires
            self.known_fields_len() + unknown_fields_size <= u32::MAX,
        ensures
            n == self.known_fields_len() + unknown_fields_size,
    {
        proof {
            lemma_known_fields_len_bound(*self);
        }
        let mut my_size: u32 = 0;
        if self.client_id != 0 {
            my_size = varint_field_size(1, self.client_id);
        }
        if self.client_type != ChannelClientType::LoginServer {
            let wire: u64 = (self.client_type.value() as i64) as u64;
            let field = varint_field_size(2, wire);
            my_size = my_size + field;
        }
        my_size + unknown_fields_size
    }

    /// What a field read from the wire with `field_number` and `wire` is for.
    pub fn field_read(field_number: u32, wire: WireKind) -> (r: FieldRead)
        ensures
            r == spec_field_read(field_number, wire),
            field_number == 1 ==> r == (if wire == WireKind::Varint {
                FieldRead::ClientId
            } else {
                FieldRead::WrongWireType
            }),
            field_number == 2 ==> r == (if wire == WireKind::Varint {
                FieldRead::ClientType
            } else {
                FieldRead::WrongWireType
            }),
            field_number != 1 && field_number != 2 ==> r == FieldRead::Unknown,
    {
        if field_number == 1 || field_number == 2 {
            if wire == WireKind::Varint {
                if field_number == 1 {
                    FieldRead::ClientId
                } else {
                    FieldRead::ClientType
                }
            } else {
                FieldRead::WrongWireType
            }
        } else {
            FieldRead::Unknown
        }
    }

    /// Takes the number read for the client type: a known kind is stored
    /// (`true`); an unknown number leaves the message as it is (`false`) and
    /// belongs with the unknown fields.
    pub fn merge_client_type(&mut self, value: i32) -> (known: bool)
        ensures
            (*final(self), known) == old(self).spec_merge_client_type(value),
            final(self).client_id == old(self).client_id,
            known ==> final(self).client_type.spec_value() == value,
            !known ==> final(self).client_type == old(self).client_type && forall|k: ChannelClientType|
                k.spec_value() != value,
    {
        match ChannelClientType::from_i32(value) {
            Some(k) => {
                self.client_type = k;
                true
            },
            None => false,
        }
    }

    /// Takes a varint field read from the wire for `field_number` (one that
    /// [`field_read`](Self::field_read) finds known) as 64 bits: field 1 is
    /// the client id; for field 2 the low 32 bits are the number of the
    /// client type, which a kind takes. What is not taken comes back, to be
    /// kept with the unknown fields: an unknown number sign-extended to 64
    /// bits, or the varint of another field as it is.
    pub fn merge_varint(&mut self, field_number: u32, raw: u64) -> (unknown: Option<u64>)
        ensures
            (*final(self), unknown) == old(self).spec_merge_varint(field_number, raw),
    {
        match Self::field_read(field_number, WireKind::Varint) {
            FieldRead::ClientId => {
                self.client_id = raw;
                None
            },
            FieldRead::ClientType => {
                let value = raw as i32;
                if self.merge_client_type(value) {
                    None
                } else {
                    Some((value as i64) as u64)
                }
            },
            _ => Some(raw),
        }
    }
}

/// What a field read from the wire with `field_number` and `wire` is for:
/// fields 1 and 2 must be varints, any other field is unknown.
pub open spec fn spec_field_read(field_number: u32, wire: WireKind) -> FieldRead {
    if field_number == 1 || field_number == 2 {
        if wire == WireKind::Varint {
            if field_number == 1 {
                FieldRead::ClientId
            } else {
                FieldRead::ClientType
            }
        } else {
            FieldRead::WrongWireType
        }
    } else {
        FieldRead::Unknown
    }
}

/// Reading back what was written gives the message again: every field that
/// writing a message puts on the wire is a known varint field that merging
/// takes without leaving anything among the unknown fields, and merging them
/// into an empty message gives the message. Fields 1 and 2 with another wire
/// type make the message malformed.
pub proof fn law_read_back_written(m: MsgChannelConnect, wire: WireKind)
    ensures
        forall|i: int|
            0 <= i < m.written_varints().len() ==> spec_field_read(#[trigger] m.written_varints()[i].0, WireKind::Varint)
                != FieldRead::Unknown,
        forall|n: MsgChannelConnect, i: int|
            0 <= i < m.written_varints().len() ==> (#[trigger] n.spec_merge_varint(
                m.written_varints()[i].0,
                m.written_varints()[i].1,
            )).1 is None,
        (MsgChannelConnect { client_id: 0, client_type: ChannelClientType::LoginServer }).merged_varints(
            m.written_varints(),
        ) == m,
        wire != WireKind::Varint ==> spec_field_read(1, wire) == FieldRead::WrongWireType && spec_field_read(
            2,
            wire,
        ) == FieldRead::WrongWireType,
{
    let k = m.client_type.spec_value();
    assert(((k as i64) as u64) as i32 == k);
    let fields = m.written_varints();
    let empty = MsgChannelConnect { client_id: 0, client_type: ChannelClientType::LoginServer };
    law_value_round_trip(m.client_type, k);
    if m.client_id != 0 {
        if m.client_type != ChannelClientType::LoginServer {
            let after_id = MsgChannelConnect { client_id: m.client_id, ..empty };
            assert(fields.drop_first() =~= seq![(2u32, (k as i64) as u64)]);
            assert(fields.drop_first().drop_first() =~= Seq::<(u32, u64)>::empty());
            assert(after_id.spec_merge_varint(2, (k as i64) as u64).0 == m);
            assert(m.merged_varints(Seq::<(u32, u64)>::empty()) == m);
            assert(after_id.merged_varints(fields.drop_first()) == m);
        } else {
            assert(fields.drop_first() =~= Seq::<(u32, u64)>::empty());
            assert(m.merged_varints(Seq::<(u32, u64)>::empty()) == m);
        }
    } else {
        if m.client_type != ChannelClientType::LoginServer {
            assert(fields =~= seq![(2u32, (k as i64) as u64)]);
            assert(fields.drop_first() =~= Seq::<(u32, u64)>::empty());
            assert(m.merged_varints(Seq::<(u32, u64)>::empty()) == m);
        } else {
            assert(fields =~= Seq::<(u32, u64)>::empty());
        }
    }
}


/// Merging a varint field read from the wire replaces what the message held
/// for it: field 1 sets the client id to the value read and keeps the client
/// type; field 2 with the number of a kind sets the client type to that kind
/// and keeps the client id; field 2 with a number of no kind changes nothing
/// and hands that number back for the unknown fields; another field changes
/// nothing and hands its varint back. Of two reads of field 1 the last one
/// stands.
pub proof fn law_merge_replaces(n: MsgChannelConnect, raw: u64, other: u64, k: ChannelClientType, value: i32)
    ensures
        n.spec_merge_varint(1, raw).0.client_id == raw,
        n.spec_merge_varint(1, raw).0.client_type == n.client_type,
        n.spec_merge_varint(1, raw).1 is None,
        n.spec_merge_varint(1, other).0.spec_merge_varint(1, raw).0.client_id == raw,
        n.spec_merge_varint(2, (k.spec_value() as i64) as u64).0.client_type == k,
        n.spec_merge_varint(2, (k.spec_value() as i64) as u64).0.client_id == n.client_id,
        n.spec_merge_varint(2, (k.spec_value() as i64) as u64).1 is None,
        (forall|j: ChannelClientType| j.spec_value() != value) ==> n.spec_merge_varint(2, (value as i64) as u64)
            == (n, Some((value as i64) as u64)),
        n.spec_merge_varint(5, raw) == (n, Some(raw)),
{
    let kv = k.spec_value();
    assert(((kv as i64) as u64) as i32 == kv);
    assert(((value as i64) as u64) as i32 == value) by (bit_vector);
    law_value_round_trip(k, kv);
    if forall|j: ChannelClientType| j.spec_value() != value {
        assert(ChannelClientType::spec_from_i32(value) is None) by {
            if let Some(j) = ChannelClientType::spec_from_i32(value) {
                law_value_round_trip(j, value);
            }
        }
    }
}


/// The numbers of the kinds on the wire: `LoginServer` 0, `PlatServer` 1,
/// `ExploreServer` 2, `UnDefined` 9; no other number names a kind.
pub proof fn law_kind_numbers(value: i32)
    ensures
        ChannelClientType::LoginServer.spec_value() == 0,
        ChannelClientType::PlatServer.spec_value() == 1,
        ChannelClientType::ExploreServer.spec_value() == 2,
        ChannelClientType::UnDefined.spec_value() == 9,
        (value != 0 && value != 1 && value != 2 && value != 9) ==> ChannelClientType::spec_from_i32(value) is None,
        (value == 0 || value == 1 || value == 2 || value == 9) ==> (ChannelClientType::spec_from_i32(value) matches Some(
            k,
        ) && k.spec_value() == value),
{
}

} // verus!
