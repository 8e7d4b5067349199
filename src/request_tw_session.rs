//! Request-TW-Session: the Control-Client's session request (RFC 5357 section 3.5).

use crate::codes::{command_code, CommandNumber, WireError};
use crate::timestamp::{
    canonical, lemma_ts_wire, push_timestamp, read_timestamp, ts_at, ts_wire, TimeStamp,
};
use crate::wire::{
    all_zero, be128, be16, be32, be64, lemma_be128, lemma_be16, lemma_be32, lemma_be64, push_bytes,
    push_u128, push_u16, push_u32, push_u64, read_array, read_u128, read_u16, read_u32, read_u64,
    u128_at, u16_at, u32_at, u64_at, zero_at,
};
use vstd::prelude::*;

verus! {

#[derive(Clone, Copy, Debug, PartialEq, Eq)]
pub struct RequestTwSession {
    /// Always `RequestTwSession`.
    pub command_number: CommandNumber,
    /// Must Be Zero; the high four bits of the second octet.
    pub mbz_first: u8,
    /// IP version of the addresses; the low four bits of the second octet.
    pub ipvn: u8,
    /// Zero in TWAMP.
    pub conf_sender: u8,
    /// Zero in TWAMP.
    pub conf_receiver: u8,
    /// Zero in TWAMP.
    pub number_of_schedule_slots: u32,
    /// Zero in TWAMP.
    pub number_of_packets: u32,
    /// UDP port the Session-Sender sends from.
    pub sender_port: u16,
    /// UDP port the Session-Reflector should listen on.
    pub receiver_port: u16,
    /// IPv4 address of the Session-Sender.
    pub sender_address: u32,
    /// Rest of an IPv6 sender address; zero for IPv4.
    pub sender_address_cont: [u8; 12],
    /// IPv4 address of the Session-Reflector.
    pub receiver_address: u32,
    /// Rest of an IPv6 receiver address; zero for IPv4.
    pub receiver_address_cont: [u8; 12],
    /// Session identifier; zero, as the Server assigns it.
    pub sid: u128,
    /// Octets appended to each test packet.
    pub padding_length: u32,
    /// When the session should start.
    pub start_time: TimeStamp,
    /// Seconds the Session-Reflector keeps reflecting after Stop-Sessions.
    pub timeout: u64,
    /// DSCP of the test packets.
    pub type_p_descriptor: u32,
    pub octets_to_be_reflected: u16,
    pub length_of_padding_to_reflect: u16,
    /// Must Be Zero.
    pub mbz_last: u32,
    /// Zero in unauthenticated mode.
    pub hmac: [u8; 16],
}

impl RequestTwSession {
    pub const SERIALIZED_SIZE: usize = 112;

    pub open spec fn wf(self) -> bool {
        &&& self.command_number == CommandNumber::RequestTwSession
        &&& self.mbz_first == 0
        &&& self.ipvn < 16
        &&& self.mbz_last == 0
        &&& all_zero(self.hmac@)
    }

    pub open spec fn wire(self) -> Seq<u8> {
        seq![
            command_code(self.command_number),
            (self.mbz_first * 16 + self.ipvn) as u8,
            self.conf_sender,
            self.conf_receiver,
        ] + be32(self.number_of_schedule_slots) + be32(self.number_of_packets) + be16(
            self.sender_port,
        ) + be16(self.receiver_port) + be32(self.sender_address) + self.sender_address_cont@
            + be32(self.receiver_address) + self.receiver_address_cont@ + be128(self.sid) + be32(
            self.padding_length,
        ) + ts_wire(self.start_time) + be64(self.timeout) + be32(self.type_p_descriptor) + be16(
            self.octets_to_be_reflected,
        ) + be16(self.length_of_padding_to_reflect) + be32(self.mbz_last) + self.hmac@
    }

    pub open spec fn check(b: Seq<u8>) -> Result<(), WireError> {
        if b.len() != 112 {
            Err(WireError::Length)
        } else if b[0] != 5 {
            Err(WireError::Command)
        } else if b[1] >= 16 || !all_zero(b.subrange(92, 96)) || !all_zero(b.subrange(96, 112)) {
            Err(WireError::MustBeZero)
        } else {
            Ok(())
        }
    }

    pub open spec fn decodes(b: Seq<u8>, m: RequestTwSession) -> bool {
        &&& m.command_number == CommandNumber::RequestTwSession
        &&& m.mbz_first == b[1] / 16
        &&& m.ipvn == b[1] % 16
        &&& m.conf_sender == b[2]
        &&& m.conf_receiver == b[3]
        &&& m.number_of_schedule_slots == u32_at(b, 4)
        &&& m.number_of_packets == u32_at(b, 8)
        &&& m.sender_port == u16_at(b, 12)
        &&& m.receiver_port == u16_at(b, 14)
        &&& m.sender_address == u32_at(b, 16)
        &&& m.sender_address_cont@ == b.subrange(20, 32)
        &&& m.receiver_address == u32_at(b, 32)
        &&& m.receiver_address_cont@ == b.subrange(36, 48)
        &&& m.sid == u128_at(b, 48)
        &&& m.padding_length == u32_at(b, 64)
        &&& m.start_time == ts_at(b, 68)
        &&& m.timeout == u64_at(b, 76)
        &&& m.type_p_descriptor == u32_at(b, 84)
        &&& m.octets_to_be_reflected == u16_at(b, 88)
        &&& m.length_of_padding_to_reflect == u16_at(b, 90)
        &&& m.mbz_last == u32_at(b, 92)
        &&& m.hmac@ == b.subrange(96, 112)
    }

    /// The fields this library sets from its arguments; every other field is zero
    /// but the IP version, which is 4.
    pub open spec fn requests(
        self,
        sender_address: u32,
        sender_port: u16,
        receiver_address: u32,
        receiver_port: u16,
        timeout: u64,
    ) -> bool {
        &&& self.wf()
        &&& self.ipvn == 4
        &&& self.conf_sender == 0
        &&& self.conf_receiver == 0
        &&& self.number_of_schedule_slots == 0
        &&& self.number_of_packets == 0
        &&& self.sender_port == sender_port
        &&& self.receiver_port == receiver_port
        &&& self.sender_address == sender_address
        &&& all_zero(self.sender_address_cont@)
        &&& self.receiver_address == receiver_address
        &&& all_zero(self.receiver_address_cont@)
        &&& self.sid == 0
        &&& self.padding_length == 0
        &&& self.timeout == timeout
        &&& self.type_p_descriptor == 0
        &&& self.octets_to_be_reflected == 0
        &&& self.length_of_padding_to_reflect == 0
        &&& all_zero(self.hmac@)
    }

    /// An IPv4 session request. Without a start time the session starts now.
    pub fn new(
        sender_address: u32,
        sender_port: u16,
        receiver_address: u32,
        receiver_port: u16,
        start_time: Option<TimeStamp>,
        timeout: u64,
    ) -> (r: RequestTwSession)
        ensures
            r.requests(sender_address, sender_port, receiver_address, receiver_port, timeout),
            match start_time {
                Some(t) => r.start_time == t,
                None => canonical(r.start_time),
            },
    {
        let start_time = match start_time {
            Some(t) => t,
            None => TimeStamp::now(),
        };
        RequestTwSession {
            command_number: CommandNumber::RequestTwSession,
            mbz_first: 0,
            ipvn: 4,
            conf_sender: 0,
            conf_receiver: 0,
            number_of_schedule_slots: 0,
            number_of_packets: 0,
            sender_port,
            receiver_port,
            sender_address,
            sender_address_cont: [0u8; 12],
            receiver_address,
            receiver_address_cont: [0u8; 12],
            sid: 0,
            padding_length: 0,
            start_time,
            timeout,
            type_p_descriptor: 0,
            octets_to_be_reflected: 0,
            length_of_padding_to_reflect: 0,
            mbz_last: 0,
            hmac: [0u8; 16],
        }
    }

    pub fn to_bytes(&self) -> (r: Vec<u8>)
        requires
            self.mbz_first < 16,
            self.ipvn < 16,
        ensures
            r@ == self.wire(),
    {
        let mut out: Vec<u8> = Vec::new();
        out.push(self.command_number.code());
        out.push(self.mbz_first * 16 + self.ipvn);
        out.push(self.conf_sender);
        out.push(self.conf_receiver);
        push_u32(&mut out, self.number_of_schedule_slots);
        push_u32(&mut out, self.number_of_packets);
        push_u16(&mut out, self.sender_port);
        push_u16(&mut out, self.receiver_port);
        push_u32(&mut out, self.sender_address);
        push_bytes(&mut out, self.sender_address_cont.as_slice());
        push_u32(&mut out, self.receiver_address);
        push_bytes(&mut out, self.receiver_address_cont.as_slice());
        push_u128(&mut out, self.sid);
        push_u32(&mut out, self.padding_length);
        push_timestamp(&mut out, self.start_time);
        push_u64(&mut out, self.timeout);
        push_u32(&mut out, self.type_p_descriptor);
        push_u16(&mut out, self.octets_to_be_reflected);
        push_u16(&mut out, self.length_of_padding_to_reflect);
        push_u32(&mut out, self.mbz_last);
        push_bytes(&mut out, self.hmac.as_slice());
        assert(out@ =~= self.wire());
        out
    }

    pub fn from_bytes(b: &[u8]) -> (r: Result<RequestTwSession, WireError>)
        ensures
            match r {
                Ok(m) => Self::check(b@) is Ok && Self::decodes(b@, m),
                Err(e) => Self::check(b@) == Err::<(), WireError>(e),
            },
    {
        if b.len() != 112 {
            return Err(WireError::Length);
        }
        if b[0] != 5 {
            return Err(WireError::Command);
        }
        if b[1] >= 16 || !zero_at(b, 92, 4) || !zero_at(b, 96, 16) {
            return Err(WireError::MustBeZero);
        }
        Ok(
            RequestTwSession {
                command_number: CommandNumber::RequestTwSession,
                mbz_first: b[1] / 16,
                ipvn: b[1] % 16,
                conf_sender: b[2],
                conf_receiver: b[3],
                number_of_schedule_slots: read_u32(b, 4),
                number_of_packets: read_u32(b, 8),
                sender_port: read_u16(b, 12),
                receiver_port: read_u16(b, 14),
                sender_address: read_u32(b, 16),
                sender_address_cont: read_array(b, 20),
                receiver_address: read_u32(b, 32),
                receiver_address_cont: read_array(b, 36),
                sid: read_u128(b, 48),
                padding_length: read_u32(b, 64),
                start_time: read_timestamp(b, 68),
                timeout: read_u64(b, 76),
                type_p_descriptor: read_u32(b, 84),
                octets_to_be_reflected: read_u16(b, 88),
                length_of_padding_to_reflect: read_u16(b, 90),
                mbz_last: read_u32(b, 92),
                hmac: read_array(b, 96),
            },
        )
    }

    /// A well-formed request serializes to its declared size, and its image is
    /// accepted and decodes to the request itself.
    #[verifier::rlimit(40)]
    pub proof fn lemma_round_trip(m: RequestTwSession, p: RequestTwSession)
        requires
            m.wf(),
        ensures
            m.wire().len() == Self::SERIALIZED_SIZE,
            Self::check(m.wire()) is Ok,
            Self::decodes(m.wire(), p) ==> p == m,
    {
        let b = m.wire();
        assert(b.len() == 112);
        assert(b[0] == 5);
        assert(b[1] == m.ipvn);
        assert(b[2] == m.conf_sender);
        assert(b[3] == m.conf_receiver);
        assert(b.subrange(4, 8) =~= be32(m.number_of_schedule_slots));
        assert(b.subrange(8, 12) =~= be32(m.number_of_packets));
        assert(b.subrange(12, 14) =~= be16(m.sender_port));
        assert(b.subrange(14, 16) =~= be16(m.receiver_port));
        assert(b.subrange(16, 20) =~= be32(m.sender_address));
        assert(b.subrange(20, 32) =~= m.sender_address_cont@);
        assert(b.subrange(32, 36) =~= be32(m.receiver_address));
        assert(b.subrange(36, 48) =~= m.receiver_address_cont@);
        assert(b.subrange(48, 64) =~= be128(m.sid));
        assert(b.subrange(64, 68) =~= be32(m.padding_length));
        assert(b.subrange(68, 76) =~= ts_wire(m.start_time));
        assert(b.subrange(76, 84) =~= be64(m.timeout));
        assert(b.subrange(84, 88) =~= be32(m.type_p_descriptor));
        assert(b.subrange(88, 90) =~= be16(m.octets_to_be_reflected));
        assert(b.subrange(90, 92) =~= be16(m.length_of_padding_to_reflect));
        assert(b.subrange(92, 96) =~= be32(m.mbz_last));
        assert(b.subrange(96, 112) =~= m.hmac@);
        lemma_be32(m.number_of_schedule_slots, b, 4);
        lemma_be32(m.number_of_packets, b, 8);
        lemma_be16(m.sender_port, b, 12);
        lemma_be16(m.receiver_port, b, 14);
        lemma_be32(m.sender_address, b, 16);
        lemma_be32(m.receiver_address, b, 32);
        lemma_be128(m.sid, b, 48);
        lemma_be32(m.padding_length, b, 64);
        lemma_ts_wire(m.start_time, b, 68);
        lemma_be64(m.timeout, b, 76);
        lemma_be32(m.type_p_descriptor, b, 84);
        lemma_be16(m.octets_to_be_reflected, b, 88);
        lemma_be16(m.length_of_padding_to_reflect, b, 90);
        lemma_be32(m.mbz_last, b, 92);
        assert(all_zero(b.subrange(92, 96)));
        if Self::decodes(b, p) {
            assert(p.sender_address_cont =~= m.sender_address_cont);
            assert(p.receiver_address_cont =~= m.receiver_address_cont);
            assert(p.hmac =~= m.hmac);
        }
    }

    /// An image of a well-formed request with a one bit in the high half of the
    /// second octet, or a non-zero octet in the last Must-Be-Zero field or the HMAC,
    /// is rejected.
    pub proof fn lemma_mbz_rejected(m: RequestTwSession, k: int, v: u8)
        requires
            m.wf(),
            (k == 1 && v >= 16) || (92 <= k < 112 && v != 0),
        ensures
            Self::check(m.wire().update(k, v)) == Err::<(), WireError>(WireError::MustBeZero),
    {
        let b = m.wire().update(k, v);
        assert(m.wire()[0] == 5);
        if 92 <= k < 96 {
            assert(b.subrange(92, 96)[k - 92] == v);
        } else if k >= 96 {
            assert(b.subrange(96, 112)[k - 96] == v);
        }
    }

    /// An image whose first octet is not the Request-TW-Session command is rejected.
    pub proof fn lemma_command_checked(b: Seq<u8>)
        requires
            b.len() == Self::SERIALIZED_SIZE,
            b[0] != 5,
        ensures
            Self::check(b) == Err::<(), WireError>(WireError::Command),
    {
    }
}

} // verus!
