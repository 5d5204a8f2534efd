//! A simulated device client: its identity, its message counter and the
//! payloads of the operations it performs.

use vstd::prelude::*;
use vstd::string::*;
use vstd::utf8::*;
use crate::clock::clock_millis;
use crate::metrics::{fits_total, measurement, total_size, MatterOSIMetrics};
use crate::session::Operation;

verus! {

/// Vendor identifier reserved for research devices.
pub const RESEARCH_VENDOR_ID: u16 = 0x8000;

/// Product identifier reserved for research devices.
pub const RESEARCH_PRODUCT_ID: u16 = 0xFFF1;

/// Least random offset added to the base temperature.
pub const TEMPERATURE_OFFSET_MIN: i16 = -500;

/// Greatest random offset added to the base temperature.
pub const TEMPERATURE_OFFSET_MAX: i16 = 1000;

/// Base temperature, in hundredths of a degree.
pub const TEMPERATURE_BASE: i16 = 2000;

/// Greatest level a level-control command carries.
pub const LEVEL_MAX: i16 = 254;

/// The two bytes of `v`, least significant first.
pub open spec fn le16(v: nat) -> Seq<u8> {
    seq![(v % 256) as u8, (v / 256) as u8]
}

/// The 16-bit pattern that stands for `v` in two's complement.
pub open spec fn twos_complement16(v: int) -> nat {
    if v >= 0 {
        v as nat
    } else {
        (v + 65536) as nat
    }
}

/// The mathematical content of a client.
pub ghost struct ClientModel {
    pub node_id: nat,
    pub endpoint_id: nat,
    pub message_counter: nat,
    pub device_name: Seq<char>,
    pub vendor_id: nat,
    pub product_id: nat,
}

impl ClientModel {
    /// A client that has sent nothing yet.
    pub open spec fn fresh(node_id: nat, device_name: Seq<char>) -> ClientModel {
        ClientModel {
            node_id,
            endpoint_id: 1,
            message_counter: 0,
            device_name,
            vendor_id: 0x8000,
            product_id: 0xFFF1,
        }
    }

    /// The client after one more message: only the counter moves.
    pub open spec fn advance(self) -> ClientModel {
        ClientModel { message_counter: self.message_counter + 1, ..self }
    }

    /// The client after `n` more messages.
    pub open spec fn advance_by(self, n: nat) -> ClientModel
        decreases n,
    {
        if n == 0 {
            self
        } else {
            self.advance_by((n - 1) as nat).advance()
        }
    }

    /// One more message, with a payload of `payload_len` bytes, keeps
    /// the counter and the total in machine range.
    pub open spec fn can_record(self, payload_len: nat) -> bool {
        self.message_counter < u32::MAX && total_size(payload_len) <= usize::MAX
    }

    /// Vendor, product, name, device type, discriminator.
    pub open spec fn commissioning_payload(self) -> Seq<u8> {
        le16(self.vendor_id) + le16(self.product_id) + encode_utf8(self.device_name)
            + seq![0x01u8, 0x02u8, 0x03u8, 0x04u8] + seq![0x10u8, 0x11u8, 0x12u8, 0x13u8]
    }

    /// Basic-information cluster, name, vendor, product.
    pub open spec fn device_info_payload(self) -> Seq<u8> {
        seq![0x28u8, 0x00u8] + encode_utf8(self.device_name) + le16(self.vendor_id) + le16(
            self.product_id,
        )
    }
}

/// On/off cluster and the command.
pub open spec fn onoff_payload(on: bool) -> Seq<u8> {
    seq![0x06u8, 0x00u8, if on { 0x01u8 } else { 0x00u8 }, 0x00u8]
}

/// Temperature cluster and the value, least significant byte first.
pub open spec fn temperature_payload(temp: int) -> Seq<u8> {
    seq![0x02u8, 0x04u8] + le16(twos_complement16(temp))
}

/// Level-control cluster, move-to-level, and the level.
pub open spec fn level_payload(level: u8) -> Seq<u8> {
    seq![0x08u8, 0x00u8, 0x04u8, level, 0x00u8, 0x00u8]
}

/// A simulated device client.
pub struct RealMatterClient {
    node_id: u64,
    endpoint_id: u16,
    message_counter: u32,
    device_name: String,
    vendor_id: u16,
    product_id: u16,
}

impl View for RealMatterClient {
    type V = ClientModel;

    closed spec fn view(&self) -> ClientModel {
        ClientModel {
            node_id: self.node_id as nat,
            endpoint_id: self.endpoint_id as nat,
            message_counter: self.message_counter as nat,
            device_name: self.device_name@,
            vendor_id: self.vendor_id as nat,
            product_id: self.product_id as nat,
        }
    }
}

/// Draws an integer through `rand::Rng::gen_range` on the thread's
/// generator, `rand::thread_rng()`, over the closed range from `low` to
/// `high`, which the call refuses when it is empty. The draw lies in the
/// range; nothing else is claimed of it.
#[verifier::external_body]
fn random_in_range(low: i16, high: i16) -> (r: i16)
    requires
        low <= high,
    ensures
        low <= r <= high,
{
    rand::Rng::gen_range(&mut rand::thread_rng(), low..=high)
}

/// The temperature, in hundredths of a degree, that a random offset
/// stands for.
pub fn temperature_from_offset(offset: i16) -> (temp: i16)
    requires
        2000 + offset <= i16::MAX,
    ensures
        temp == 2000 + offset,
        -500 <= offset <= 1000 ==> 1500 <= temp <= 3000,
{
    TEMPERATURE_BASE + offset
}

/// The level that a random draw stands for.
pub fn level_from_draw(draw: i16) -> (level: u8)
    requires
        0 <= draw <= u8::MAX,
    ensures
        level == draw,
{
    draw as u8
}

fn push_le16(payload: &mut Vec<u8>, v: u16)
    ensures
        final(payload)@ == old(payload)@ + le16(v as nat),
{
    payload.push((v % 256) as u8);
    payload.push((v / 256) as u8);
    assert(payload@ =~= old(payload)@ + le16(v as nat));
}

impl RealMatterClient {
    /// A client for the device `device_name` at `node_id`, on endpoint 1,
    /// with the research vendor and product identifiers and no message
    /// sent.
    pub fn new(node_id: u64, device_name: &str) -> (c: Self)
        ensures
            c@ == ClientModel::fresh(node_id as nat, device_name@),
    {
        RealMatterClient {
            node_id,
            endpoint_id: 1,
            message_counter: 0,
            device_name: device_name.to_owned(),
            vendor_id: RESEARCH_VENDOR_ID,
            product_id: RESEARCH_PRODUCT_ID,
        }
    }

    /// The number of messages sent so far.
    pub fn message_counter(&self) -> (n: u32)
        ensures
            n == self@.message_counter,
    {
        self.message_counter
    }

    /// The node identifier.
    pub fn node_id(&self) -> (n: u64)
        ensures
            n == self@.node_id,
    {
        self.node_id
    }

    /// The endpoint addressed.
    pub fn endpoint_id(&self) -> (n: u16)
        ensures
            n == self@.endpoint_id,
    {
        self.endpoint_id
    }

    /// The vendor identifier.
    pub fn vendor_id(&self) -> (n: u16)
        ensures
            n == self@.vendor_id,
    {
        self.vendor_id
    }

    /// The product identifier.
    pub fn product_id(&self) -> (n: u16)
        ensures
            n == self@.product_id,
    {
        self.product_id
    }

    /// The device's name.
    pub fn device_name(&self) -> (s: &str)
        ensures
            s@ == self@.device_name,
    {
        self.device_name.as_str()
    }

    /// Whether the client can record one more message, with a payload of
    /// `payload_len` bytes: the counter and the total stay in range.
    pub fn can_record(&self, payload_len: usize) -> (ok: bool)
        ensures
            ok == self@.can_record(payload_len as nat),
    {
        self.message_counter < u32::MAX && fits_total(payload_len)
    }

    /// Counts one more message and measures its payload at the time a
    /// clock reading gives, where the reading is one.
    pub fn record_message(&mut self, message_type: &str, payload: &[u8], reading: Option<u64>) -> (r:
        Option<MatterOSIMetrics>)
        requires
            old(self)@.can_record(payload@.len()),
        ensures
            final(self)@ == old(self)@.advance(),
            reading is None <==> r is None,
            reading matches Some(t) ==> r matches Some(m) && m@ == measurement(
                t as nat,
                old(self)@.message_counter + 1,
                message_type@,
                payload@.len(),
            ),
    {
        self.message_counter = self.message_counter + 1;
        MatterOSIMetrics::stamped(reading, self.message_counter, message_type, payload)
    }

    /// Records a commissioning message, stamped now.
    pub fn perform_commissioning(&mut self) -> (r: Option<MatterOSIMetrics>)
        requires
            old(self)@.can_record(old(self)@.commissioning_payload().len()),
        ensures
            final(self)@ == old(self)@.advance(),
            r matches Some(m) ==> m@ == measurement(
                m@.timestamp,
                old(self)@.message_counter + 1,
                Operation::Commissioning.label_spec(),
                old(self)@.commissioning_payload().len(),
            ),
    {
        let payload = self.create_commissioning_payload();
        self.record_message(Operation::Commissioning.label(), payload.as_slice(), clock_millis())
    }

    /// Records an on command or an off command, stamped now.
    pub fn send_on_off_command(&mut self, on: bool) -> (r: Option<MatterOSIMetrics>)
        requires
            old(self)@.message_counter < u32::MAX,
        ensures
            final(self)@ == old(self)@.advance(),
            r matches Some(m) ==> m@ == measurement(
                m@.timestamp,
                old(self)@.message_counter + 1,
                if on {
                    Operation::OnCommand.label_spec()
                } else {
                    Operation::OffCommand.label_spec()
                },
                4,
            ),
    {
        let payload = self.create_onoff_command_payload(on);
        let operation = if on {
            Operation::OnCommand
        } else {
            Operation::OffCommand
        };
        self.record_message(operation.label(), payload.as_slice(), clock_millis())
    }

    /// Draws a temperature between 15 and 30 degrees and records its
    /// reading, stamped now. Returns the temperature, in hundredths of a
    /// degree, with the measurement.
    pub fn read_temperature_cluster(&mut self) -> (r: (i16, Option<MatterOSIMetrics>))
        requires
            old(self)@.message_counter < u32::MAX,
        ensures
            final(self)@ == old(self)@.advance(),
            1500 <= r.0 <= 3000,
            r.1 matches Some(m) ==> m@ == measurement(
                m@.timestamp,
                old(self)@.message_counter + 1,
                Operation::TemperatureRead.label_spec(),
                4,
            ),
    {
        let offset = random_in_range(TEMPERATURE_OFFSET_MIN, TEMPERATURE_OFFSET_MAX);
        let temperature = temperature_from_offset(offset);
        let payload = self.create_temperature_read_payload(temperature);
        let metrics = self.record_message(
            Operation::TemperatureRead.label(),
            payload.as_slice(),
            clock_millis(),
        );
        (temperature, metrics)
    }

    /// Draws a level from 0 to 254 and records the command that moves to
    /// it, stamped now. Returns the level with the measurement.
    pub fn send_level_control_command(&mut self) -> (r: (u8, Option<MatterOSIMetrics>))
        requires
            old(self)@.message_counter < u32::MAX,
        ensures
            final(self)@ == old(self)@.advance(),
            r.0 <= 254,
            r.1 matches Some(m) ==> m@ == measurement(
                m@.timestamp,
                old(self)@.message_counter + 1,
                Operation::LevelControl.label_spec(),
                6,
            ),
    {
        let level = level_from_draw(random_in_range(0, LEVEL_MAX));
        let payload = self.create_level_control_payload(level);
        let metrics = self.record_message(
            Operation::LevelControl.label(),
            payload.as_slice(),
            clock_millis(),
        );
        (level, metrics)
    }

    /// Records a device-information report, stamped now.
    pub fn read_device_information(&mut self) -> (r: Option<MatterOSIMetrics>)
        requires
            old(self)@.can_record(old(self)@.device_info_payload().len()),
        ensures
            final(self)@ == old(self)@.advance(),
            r matches Some(m) ==> m@ == measurement(
                m@.timestamp,
                old(self)@.message_counter + 1,
                Operation::DeviceInfo.label_spec(),
                old(self)@.device_info_payload().len(),
            ),
    {
        let payload = self.create_device_info_payload();
        self.record_message(Operation::DeviceInfo.label(), payload.as_slice(), clock_millis())
    }

    /// The payload of a commissioning message.
    pub fn create_commissioning_payload(&self) -> (payload: Vec<u8>)
        ensures
            payload@ == self@.commissioning_payload(),
    {
        let mut payload: Vec<u8> = Vec::new();
        push_le16(&mut payload, self.vendor_id);
        push_le16(&mut payload, self.product_id);
        let mut name: Vec<u8> = self.device_name.as_str().as_bytes_vec();
        payload.append(&mut name);
        payload.push(0x01);
        payload.push(0x02);
        payload.push(0x03);
        payload.push(0x04);
        payload.push(0x10);
        payload.push(0x11);
        payload.push(0x12);
        payload.push(0x13);
        assert(payload@ =~= self@.commissioning_payload());
        payload
    }

    /// The payload of an on or off command.
    pub fn create_onoff_command_payload(&self, on: bool) -> (payload: Vec<u8>)
        ensures
            payload@ == onoff_payload(on),
    {
        let command: u8 = if on {
            0x01
        } else {
            0x00
        };
        let payload: Vec<u8> = vec![0x06, 0x00, command, 0x00];
        assert(payload@ =~= onoff_payload(on));
        payload
    }

    /// The payload of a temperature report of `temp` hundredths of a
    /// degree.
    pub fn create_temperature_read_payload(&self, temp: i16) -> (payload: Vec<u8>)
        ensures
            payload@ == temperature_payload(temp as int),
    {
        let pattern: u16 = if temp >= 0 {
            temp as u16
        } else {
            (temp as i32 + 65536) as u16
        };
        let mut payload: Vec<u8> = vec![0x02, 0x04];
        push_le16(&mut payload, pattern);
        assert(payload@ =~= temperature_payload(temp as int));
        payload
    }

    /// The payload of a move-to-level command.
    pub fn create_level_control_payload(&self, level: u8) -> (payload: Vec<u8>)
        ensures
            payload@ == level_payload(level),
    {
        let payload: Vec<u8> = vec![0x08, 0x00, 0x04, level, 0x00, 0x00];
        assert(payload@ =~= level_payload(level));
        payload
    }

    /// The payload of a device-information report.
    pub fn create_device_info_payload(&self) -> (payload: Vec<u8>)
        ensures
            payload@ == self@.device_info_payload(),
    {
        let mut payload: Vec<u8> = vec![0x28, 0x00];
        let mut name: Vec<u8> = self.device_name.as_str().as_bytes_vec();
        payload.append(&mut name);
        push_le16(&mut payload, self.vendor_id);
        push_le16(&mut payload, self.product_id);
        assert(payload@ =~= self@.device_info_payload());
        payload
    }
}

/// After `n` more messages the counter stands `n` higher, and nothing
/// else of the client has changed: no identifier is repeated or lowered.
pub proof fn counter_advances_by_one(c: ClientModel, n: nat)
    ensures
        c.advance_by(n) == (ClientModel { message_counter: c.message_counter + n, ..c }),
        c.advance_by(n + 1).message_counter == c.advance_by(n).message_counter + 1,
    decreases n,
{
    if n > 0 {
        counter_advances_by_one(c, (n - 1) as nat);
    }
}

/// Messages recorded one after another by a fresh client carry the
/// identifiers 1, 2, 3 and so on: the `n`-th carries `n`.
pub proof fn message_ids_count_from_one(node_id: nat, device_name: Seq<char>, n: nat)
    ensures
        ClientModel::fresh(node_id, device_name).advance_by(n).message_counter == n,
{
    counter_advances_by_one(ClientModel::fresh(node_id, device_name), n);
}

} // verus!
