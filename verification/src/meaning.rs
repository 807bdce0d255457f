//! What values mean: the order of numbers, bytes, names, formulas, and what
//! contracts see of packets.

use crate::client::outcome_model;
use crate::crypt::{
    byte_length, is_answer, is_encryption, refusal_detail, refusal_start, Handshake, KeyNumbers,
    Refusal,
};
use crate::float::{
    double_is_nan, double_le, double_lt, double_magnitude, double_same, single_capped,
    single_clipped, single_is_nan, single_le, single_lt, single_magnitude, Double, Single,
    DOUBLE_INFINITY, DOUBLE_SIGN, SINGLE_INFINITY, SINGLE_MINUS_NINETY, SINGLE_NINETY, SINGLE_ONE,
    SINGLE_SIGN,
};
use crate::naming::{decimal, name_of};
use crate::packet::{plain, Action, ActionModel, Effect, Packet, PacketModel, Serverbound};
use crate::receive::{is_encryption_reply, PacketStep, Step, StepModel};
use crate::term::{
    double_value, round_values, single_value, Arithmetic, DoubleTerm, SingleTerm, Terms,
};
use crate::tick::sent;
use crate::wire::{
    base128, base128_bytes, big_endian, byte_at, groups, int_at, packet_bytes, single_at,
    unsigned32, var_int_at, var_int_bytes, ReadingError,
};
use vstd::prelude::*;

verus! {

// ---------------------------------------------------------------------------
// Numbers

/// The order of doubles by their bits: what is no number compares to nothing,
/// positive numbers go up with their bits and negative ones down, a negative
/// number is below a positive one, and the two zeros are the same.
pub proof fn law_double_order(a: Double, b: Double)
    ensures
        a < DOUBLE_SIGN ==> double_magnitude(a) == a,
        a >= DOUBLE_SIGN ==> double_magnitude(a) == a - DOUBLE_SIGN,
        double_is_nan(a) <==> double_magnitude(a) > DOUBLE_INFINITY,
        double_is_nan(a) || double_is_nan(b) ==> !double_lt(a, b) && !double_le(a, b),
        !double_is_nan(a) && !double_is_nan(b) ==> {
            &&& a < DOUBLE_SIGN && b < DOUBLE_SIGN ==> (double_lt(a, b) <==> a < b) && (double_le(
                a,
                b,
            ) <==> a <= b)
            &&& a >= DOUBLE_SIGN && b >= DOUBLE_SIGN ==> (double_lt(a, b) <==> a > b) && (double_le(
                a,
                b,
            ) <==> a >= b)
            &&& a >= DOUBLE_SIGN && b < DOUBLE_SIGN ==> double_le(a, b) && (double_lt(a, b) <==> !(a
                == DOUBLE_SIGN && b == 0))
            &&& a < DOUBLE_SIGN && b >= DOUBLE_SIGN ==> !double_lt(a, b) && (double_le(a, b) <==> a
                == 0 && b == DOUBLE_SIGN)
        },
        double_same(a, b) <==> double_le(a, b) && double_le(b, a),
{
}

/// The order of singles by their bits, likewise.
pub proof fn law_single_order(a: Single, b: Single)
    ensures
        a < SINGLE_SIGN ==> single_magnitude(a) == a,
        a >= SINGLE_SIGN ==> single_magnitude(a) == a - SINGLE_SIGN,
        single_is_nan(a) <==> single_magnitude(a) > SINGLE_INFINITY,
        single_is_nan(a) || single_is_nan(b) ==> !single_lt(a, b) && !single_le(a, b),
        !single_is_nan(a) && !single_is_nan(b) ==> {
            &&& a < SINGLE_SIGN && b < SINGLE_SIGN ==> (single_lt(a, b) <==> a < b) && (single_le(
                a,
                b,
            ) <==> a <= b)
            &&& a >= SINGLE_SIGN && b >= SINGLE_SIGN ==> (single_lt(a, b) <==> a > b) && (single_le(
                a,
                b,
            ) <==> a >= b)
            &&& a >= SINGLE_SIGN && b < SINGLE_SIGN ==> single_le(a, b) && (single_lt(a, b) <==> !(a
                == SINGLE_SIGN && b == 0))
            &&& a < SINGLE_SIGN && b >= SINGLE_SIGN ==> !single_lt(a, b) && (single_le(a, b) <==> a
                == 0 && b == SINGLE_SIGN)
        },
{
}

/// Capping leaves what is below one and makes everything else one; clipping
/// leaves what is in the range or no number, and goes to the nearer end
/// otherwise.
pub proof fn law_capped_and_clipped(a: Single)
    ensures
        single_lt(a, SINGLE_ONE) ==> single_capped(a) == a,
        single_le(SINGLE_ONE, a) || single_is_nan(a) ==> single_capped(a) == SINGLE_ONE,
        single_is_nan(a) ==> single_clipped(a) == a,
        single_le(SINGLE_MINUS_NINETY, a) && single_le(a, SINGLE_NINETY) ==> single_clipped(a) == a,
        single_lt(a, SINGLE_MINUS_NINETY) ==> single_clipped(a) == SINGLE_MINUS_NINETY,
        single_lt(SINGLE_NINETY, a) ==> single_clipped(a) == SINGLE_NINETY,
{
}

/// A formula means what it says: each operation is applied to the values of its
/// operands, in their order.
pub proof fn law_term_values(
    m: Arithmetic,
    x: Box<DoubleTerm>,
    y: Box<DoubleTerm>,
    s: Box<SingleTerm>,
    t: Box<SingleTerm>,
    a: Double,
    b: Double,
    f: Single,
    g: Single,
    n: i32,
    terms: Terms,
)
    ensures
        double_value(m, DoubleTerm::Lit(a)) == a,
        double_value(m, DoubleTerm::Sum(x, y)) == (m.sum)(
            double_value(m, *x),
            double_value(m, *y),
        ),
        double_value(m, DoubleTerm::Difference(x, y)) == (m.difference)(
            double_value(m, *x),
            double_value(m, *y),
        ),
        double_value(m, DoubleTerm::Product(x, y)) == (m.product)(
            double_value(m, *x),
            double_value(m, *y),
        ),
        double_value(m, DoubleTerm::Negated(x)) == (m.negated)(double_value(m, *x)),
        double_value(m, DoubleTerm::Sine(x)) == (m.sine)(double_value(m, *x)),
        double_value(m, DoubleTerm::Cosine(x)) == (m.cosine)(double_value(m, *x)),
        double_value(m, DoubleTerm::Uniform { from: a, to: b }) == (m.uniform)(a, b),
        single_value(m, SingleTerm::Lit(f)) == f,
        single_value(m, SingleTerm::Sum(s, t)) == (m.single_sum)(
            single_value(m, *s),
            single_value(m, *t),
        ),
        single_value(m, SingleTerm::Difference(s, t)) == (m.single_difference)(
            single_value(m, *s),
            single_value(m, *t),
        ),
        single_value(m, SingleTerm::Product(s, t)) == (m.single_product)(
            single_value(m, *s),
            single_value(m, *t),
        ),
        single_value(m, SingleTerm::Remainder(s, t)) == (m.single_remainder)(
            single_value(m, *s),
            single_value(m, *t),
        ),
        single_value(m, SingleTerm::Power(s, n)) == (m.single_power)(single_value(m, *s), n),
        single_value(m, SingleTerm::Degrees(*x)) == (m.degrees)(double_value(m, *x)),
        single_value(m, SingleTerm::Uniform { from: f, to: g }) == (m.single_uniform)(f, g),
        round_values(m, terms).a == double_value(m, terms.a),
        round_values(m, terms).b == double_value(m, terms.b),
        round_values(m, terms).c == double_value(m, terms.c),
        round_values(m, terms).s == single_value(m, terms.s),
        round_values(m, terms).t == single_value(m, terms.t),
{
}

// ---------------------------------------------------------------------------
// Bytes

/// One byte of a variable-length integer and the bytes after it.
proof fn lemma_var_int_byte(s: Seq<u8>, k: int, n: int)
    requires
        0 <= k < s.len(),
        1 <= n <= s.len() - k,
    ensures
        s.skip(k).len() > 0,
        s.skip(k)[0] == s[k],
        s.skip(k).drop_first() == s.skip(k + 1),
        base128(s.skip(k).take(n)) == s[k] % 128 + 128 * base128(s.skip(k + 1).take(n - 1)),
{
    assert(s.skip(k).drop_first() =~= s.skip(k + 1));
    assert(s.skip(k).take(n).drop_first() =~= s.skip(k + 1).take(n - 1));
}

/// The value of a variable-length integer of up to five bytes.
proof fn lemma_var_int_value(s: Seq<u8>, n: int)
    requires
        1 <= n <= 5,
        n <= s.len(),
    ensures
        base128(s.take(n)) == s[0] % 128 + (if n > 1 {
            128 * (s[1] % 128)
        } else {
            0
        }) + (if n > 2 {
            0x4000 * (s[2] % 128)
        } else {
            0
        }) + (if n > 3 {
            0x20_0000 * (s[3] % 128)
        } else {
            0
        }) + (if n > 4 {
            0x1000_0000 * (s[4] % 128)
        } else {
            0
        }),
{
    assert(s.skip(0) =~= s);
    lemma_var_int_byte(s, 0, n);
    if n > 1 {
        lemma_var_int_byte(s, 1, n - 1);
    }
    if n > 2 {
        lemma_var_int_byte(s, 2, n - 2);
    }
    if n > 3 {
        lemma_var_int_byte(s, 3, n - 3);
    }
    if n > 4 {
        lemma_var_int_byte(s, 4, n - 4);
    }
    assert(base128(s.skip(n).take(0)) == 0) by {
        assert(s.skip(n).take(0).len() == 0);
    }
}

/// Where a variable-length integer ends.
proof fn lemma_var_int_end(s: Seq<u8>, k: int)
    requires
        0 <= k <= 5,
        k <= s.len(),
        forall|i: int| 0 <= i < k ==> s[i] >= 128,
    ensures
        groups(s, 5) == (match groups(s.skip(k), (5 - k) as nat) {
            Ok(n) => Ok::<int, ReadingError>(n + k),
            Err(e) => Err(e),
        }),
    decreases k,
{
    if k == 0 {
        assert(s.skip(0) =~= s);
    } else {
        lemma_var_int_end(s, k - 1);
        lemma_var_int_byte(s, k - 1, 1);
        assert(s[k - 1] >= 128);
    }
}

/// A variable-length integer ends with its first byte below 128.  Each byte
/// brings seven bits, the lowest first, and the fifth is cut to what fits.  The
/// number is incomplete where the bytes end before it does, and too large where
/// the fifth byte does not end it.
pub proof fn law_var_int_read(s: Seq<u8>, n: int)
    ensures
        1 <= n <= 5 && n <= s.len() && (forall|i: int| 0 <= i < n - 1 ==> s[i] >= 128) && s[n - 1]
            < 128 ==> {
            let low = s[0] % 128 + (if n > 1 {
                128 * (s[1] % 128)
            } else {
                0
            }) + (if n > 2 {
                0x4000 * (s[2] % 128)
            } else {
                0
            }) + (if n > 3 {
                0x20_0000 * (s[3] % 128)
            } else {
                0
            }) + (if n > 4 {
                0x1000_0000 * (s[4] % 16)
            } else {
                0
            });
            var_int_at(s) matches Ok((v, len)) && len == n && v == (if low < 0x8000_0000 {
                low
            } else {
                low - 0x1_0000_0000
            })
        },
        s.len() < 5 && (forall|i: int| 0 <= i < s.len() ==> s[i] >= 128) ==> var_int_at(s) == Err::<
            (i32, int),
            ReadingError,
        >(ReadingError::Incomplete),
        s.len() >= 5 && (forall|i: int| 0 <= i < 5 ==> s[i] >= 128) ==> var_int_at(s) == Err::<
            (i32, int),
            ReadingError,
        >(ReadingError::TooLarge),
{
    if 1 <= n <= 5 && n <= s.len() && (forall|i: int| 0 <= i < n - 1 ==> s[i] >= 128) && s[n - 1]
        < 128 {
        lemma_var_int_end(s, n - 1);
        lemma_var_int_byte(s, n - 1, 1);
        lemma_var_int_value(s, n);
    }
    if s.len() < 5 && (forall|i: int| 0 <= i < s.len() ==> s[i] >= 128) {
        lemma_var_int_end(s, s.len() as int);
    }
    if s.len() >= 5 && (forall|i: int| 0 <= i < 5 ==> s[i] >= 128) {
        lemma_var_int_end(s, 5);
    }
}

proof fn lemma_base128_shape(n: nat)
    ensures
        ({
            let s = base128_bytes(n);
            &&& s.len() >= 1
            &&& s.last() < 128
            &&& n > 0 ==> s.last() > 0
            &&& n == 0 ==> s.len() == 1
            &&& forall|i: int| 0 <= i < s.len() - 1 ==> #[trigger] s[i] >= 128
        }),
    decreases n,
{
    if n >= 128 {
        lemma_base128_shape(n / 128);
        let s = base128_bytes(n);
        let tail = base128_bytes(n / 128);
        assert(s =~= seq![(n % 128 + 128) as u8] + tail);
        assert(s.last() == tail.last());
        assert forall|i: int| 0 <= i < s.len() - 1 implies #[trigger] s[i] >= 128 by {
            if i > 0 {
                assert(s[i] == tail[i - 1]);
            }
        }
    }
}

/// A variable-length integer is written as short as it can be: every byte but
/// the last goes on, and the last is zero only for zero itself.
pub proof fn law_var_int_written(v: i32)
    ensures
        ({
            let s = var_int_bytes(v);
            &&& s.len() >= 1
            &&& s.last() < 128
            &&& forall|i: int| 0 <= i < s.len() - 1 ==> #[trigger] s[i] >= 128
            &&& v != 0 ==> s.last() > 0
            &&& v == 0 ==> s.len() == 1
        }),
{
    lemma_base128_shape(unsigned32(v as int) as nat);
}

/// A packet is its id, written as a variable-length integer, and then its data,
/// and nothing else.
pub proof fn law_packet_is_id_and_data(id: i32, data: Seq<u8>)
    ensures
        ({
            let bytes = packet_bytes(id, data);
            let n = var_int_bytes(id).len() as int;
            &&& bytes.len() == n + data.len()
            &&& bytes.take(n) == var_int_bytes(id)
            &&& bytes.skip(n) == data
        }),
{
    let n = var_int_bytes(id).len() as int;
    assert(packet_bytes(id, data).take(n) =~= var_int_bytes(id));
    assert(packet_bytes(id, data).skip(n) =~= data);
}

/// Integers and singles are four bytes, the highest first, and bytes are signed.
pub proof fn law_words_read(s: Seq<u8>, i: int)
    requires
        0 <= i,
    ensures
        s.len() < 4 ==> int_at(s) == Err::<i32, ReadingError>(ReadingError::Incomplete)
            && single_at(s) == Err::<u32, ReadingError>(ReadingError::Incomplete),
        s.len() >= 4 ==> {
            let word = 0x100_0000 * s[0] + 0x1_0000 * s[1] + 0x100 * s[2] + s[3];
            &&& int_at(s) matches Ok(v) && v == (if s[0] < 128 {
                word
            } else {
                word - 0x1_0000_0000
            })
            &&& single_at(s) matches Ok(bits) && bits == word
        },
        s.len() <= i ==> byte_at(s, i) == Err::<i8, ReadingError>(ReadingError::Incomplete),
        i < s.len() ==> (byte_at(s, i) matches Ok(v) && v == (if s[i] < 128 {
            s[i] as int
        } else {
            s[i] - 256
        })),
{
    if s.len() >= 4 {
        reveal_with_fuel(big_endian, 5);
        let t = s.take(4);
        assert(t.drop_last() =~= s.take(3));
        assert(s.take(3).drop_last() =~= s.take(2));
        assert(s.take(2).drop_last() =~= s.take(1));
        assert(s.take(1).drop_last() =~= s.take(0));
    }
}

// ---------------------------------------------------------------------------
// Names

/// The number that decimal digits stand for.
pub open spec fn number(digits: Seq<char>) -> int
    decreases digits.len(),
{
    if digits.len() == 0 {
        0
    } else {
        10 * number(digits.drop_last()) + (digits.last() as int - '0' as int)
    }
}

proof fn lemma_decimal(n: nat)
    ensures
        ({
            let s = decimal(n);
            &&& s.len() >= 1
            &&& number(s) == n
            &&& forall|i: int| 0 <= i < s.len() ==> '0' <= #[trigger] s[i] && s[i] <= '9'
            &&& n > 0 ==> s[0] != '0'
            &&& n == 0 ==> s.len() == 1
        }),
    decreases n,
{
    let s = decimal(n);
    if n < 10 {
        assert(s.drop_last() =~= Seq::<char>::empty());
        assert(number(s.drop_last()) == 0);
        assert(s.last() == s[0]);
    } else {
        lemma_decimal(n / 10);
        let head = decimal(n / 10);
        assert(s.drop_last() =~= head);
        assert(s[0] == head[0]);
        assert forall|i: int| 0 <= i < s.len() implies '0' <= #[trigger] s[i] && s[i] <= '9' by {
            if i < head.len() {
                assert(s[i] == head[i]);
            }
        }
    }
}

/// A bot's name is `BOT_` and its number in decimal, which reads back as the
/// number, without leading zeros.
pub proof fn law_name_reads_back(i: u32)
    ensures
        ({
            let name = name_of(i);
            &&& name.len() >= 5
            &&& name.take(4) == seq!['B', 'O', 'T', '_']
            &&& number(name.skip(4)) == i
            &&& forall|k: int| 4 <= k < name.len() ==> '0' <= #[trigger] name[k] && name[k] <= '9'
            &&& name.len() > 5 ==> name[4] != '0'
        }),
{
    reveal_strlit("BOT_");
    lemma_decimal(i as nat);
    let name = name_of(i);
    let digits = decimal(i as nat);
    assert(name.take(4) =~= seq!['B', 'O', 'T', '_']);
    assert(name.skip(4) =~= digits);
    assert forall|k: int| 4 <= k < name.len() implies '0' <= #[trigger] name[k] && name[k] <= '9' by {
        assert(name[k] == digits[k - 4]);
    }
    assert(name[4] == digits[0]);
}

// ---------------------------------------------------------------------------
// Packets and actions

/// Contracts see every field of a packet as it is.
pub proof fn law_packets_are_seen_whole(p: Serverbound)
    ensures
        match p {
            Packet::HandShake { protocol_version, server_address, server_port, next_state } => p@
                == (PacketModel::HandShake {
                protocol_version,
                server_address: server_address@,
                server_port,
                next_state,
            }),
            Packet::LoginStart { name, uuid } => p@ == (PacketModel::LoginStart {
                name: name@,
                uuid,
            }),
            Packet::EncryptionResponse { shared_secret, verify_token } => p@
                == (PacketModel::EncryptionResponse {
                shared_secret: shared_secret@,
                verify_token: verify_token@,
            }),
            Packet::LoginAcknowledged => p@ == PacketModel::LoginAcknowledged,
            Packet::KnownPacks => p@ == PacketModel::KnownPacks,
            Packet::ConfigPong { id } => p@ == (PacketModel::ConfigPong { id }),
            Packet::AcknowledgeFinishConfig => p@ == PacketModel::AcknowledgeFinishConfig,
            Packet::KeepAlive { keep_alive_id } => p@ == (PacketModel::KeepAlive { keep_alive_id }),
            Packet::ConfirmTeleport { teleport_id } => p@ == (PacketModel::ConfirmTeleport {
                teleport_id,
            }),
            Packet::PlayerLoaded => p@ == PacketModel::PlayerLoaded,
            Packet::ClientCommand { action_id } => p@ == (PacketModel::ClientCommand { action_id }),
            Packet::SwingArm { hand } => p@ == (PacketModel::SwingArm { hand }),
            Packet::ChatMessage {
                message,
                timestamp,
                salt,
                message_count,
                acknowledged,
                checksum,
            } => p@ == (PacketModel::ChatMessage {
                message: message@,
                timestamp,
                salt,
                message_count,
                acknowledged: acknowledged@,
                checksum,
            }),
            Packet::PlayerPosition { x, y, z, collision } => p@ == (PacketModel::PlayerPosition {
                x,
                y,
                z,
                collision,
            }),
            Packet::PlayerPositionRotation { x, y, z, yaw, pitch, collision } => p@
                == (PacketModel::PlayerPositionRotation { x, y, z, yaw, pitch, collision }),
            Packet::PlayerRotation { yaw, pitch, ground } => p@ == (PacketModel::PlayerRotation {
                yaw,
                pitch,
                ground,
            }),
            Packet::SetPlayerGround { on_ground } => p@ == (PacketModel::SetPlayerGround {
                on_ground,
            }),
        },
{
}

/// Contracts see every action as it is, all of a list of actions, in order, and
/// all of what comes of a packet.
pub proof fn law_actions_are_seen_whole(
    a: Action,
    actions: Seq<Action>,
    step: PacketStep,
    send: Option<Serverbound>,
    outcome: Option<Result<Vec<Action>, ReadingError>>,
)
    ensures
        match a {
            Effect::Send(p) => a@ == ActionModel::Send(p@),
            Effect::SetCompression { threshold, level } => a@ == (ActionModel::SetCompression {
                threshold,
                level,
            }),
            Effect::StopCompression => a@ == ActionModel::StopCompression,
            Effect::SetEncryption(key) => a@ == ActionModel::SetEncryption(key),
            Effect::Close => a@ == ActionModel::Close,
        },
        plain(actions).len() == actions.len(),
        forall|i: int| 0 <= i < actions.len() ==> #[trigger] plain(actions)[i] == actions[i]@,
        match step {
            Step::Done(list) => step@ == StepModel::Done(plain(list@)),
            Step::Decode(what) => step@ == StepModel::Decode(what),
            Step::Failed(e) => step@ == StepModel::Failed(e),
        },
        match send {
            Some(p) => sent(send) == Some(p@),
            None => sent(send) is None,
        },
        match outcome {
            Some(Ok(list)) => outcome_model(outcome) matches Some(Ok(seen)) && seen == plain(list@),
            Some(Err(e)) => outcome_model(outcome) matches Some(Err(seen)) && seen == e,
            None => outcome_model(outcome) is None,
        },
{
}

// ---------------------------------------------------------------------------
// Encryption

/// What the answer to an encryption request is: an error in these words for a
/// document without a key and for a token that does not fit, and otherwise the
/// secret itself with the secret and the token, each encrypted under the key.
pub proof fn law_answer_means(
    r: Result<Handshake, ReadingError>,
    key: Result<KeyNumbers, Seq<char>>,
    token: Seq<u8>,
    secret: [u8; 16],
)
    requires
        is_answer(r, key, token, secret),
    ensures
        key matches Err(words) ==> (r matches Err(ReadingError::Message(text)) && text@
            == "Failed to parse RSA public key: "@ + words),
        key matches Ok(k) ==> {
            if token.len() + 11 <= byte_length(k.modulus) {
                r matches Ok(h) && h.secret == secret && is_encryption(
                    h.shared_secret@,
                    secret@,
                    k,
                ) && is_encryption(h.verify_token@, token, k)
            } else {
                r matches Err(ReadingError::Message(text)) && text@
                    == "Failed to encrypt verify token: "@ + "message too long"@
            }
        },
{
}

/// What an encryption request makes a client do: the same errors, or exactly two
/// actions, of which the first sends the secret and the token, each encrypted
/// under the key, and the second encrypts with that secret.
pub proof fn law_encryption_reply_means(
    r: Result<Vec<Action>, ReadingError>,
    key: Result<KeyNumbers, Seq<char>>,
    token: Seq<u8>,
    secret: [u8; 16],
)
    requires
        is_encryption_reply(r, key, token, secret),
    ensures
        key matches Err(words) ==> (r matches Err(ReadingError::Message(text)) && text@
            == "Failed to parse RSA public key: "@ + words),
        key matches Ok(k) ==> {
            if token.len() + 11 <= byte_length(k.modulus) {
                &&& r matches Ok(actions)
                &&& plain(actions@).len() == 2
                &&& plain(actions@)[0] matches Effect::Send(
                    Packet::EncryptionResponse { shared_secret, verify_token },
                ) && is_encryption(shared_secret, secret@, k) && is_encryption(
                    verify_token,
                    token,
                    k,
                )
                &&& plain(actions@)[1] == ActionModel::SetEncryption(secret)
            } else {
                r matches Err(ReadingError::Message(text)) && text@
                    == "Failed to encrypt verify token: "@ + "message too long"@
            }
        },
{
}

/// A refusal names the step that failed and keeps what the step said.
pub proof fn law_refusal_words(detail: String)
    ensures
        refusal_start(Refusal::Key(detail)) == "Failed to parse RSA public key: "@,
        refusal_start(Refusal::Secret(detail)) == "Failed to encrypt shared secret: "@,
        refusal_start(Refusal::Token(detail)) == "Failed to encrypt verify token: "@,
        refusal_detail(Refusal::Key(detail)) == detail@,
        refusal_detail(Refusal::Secret(detail)) == detail@,
        refusal_detail(Refusal::Token(detail)) == detail@,
{
}

} // verus!
