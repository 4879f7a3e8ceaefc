use vstd::prelude::*;

verus! {

/// Default slave address
pub const SLAVE_ADDRESS: u8 = 1;

/// One shift of the checksum register: the low bit falls out, and if it was
/// set the polynomial `0xA001` is folded in.
pub open spec fn crc_shift(crc: u16) -> u16 {
    if crc & 0x0001 != 0 {
        (crc >> 1) ^ 0xA001
    } else {
        crc >> 1
    }
}

/// `n` shifts of the checksum register.
pub open spec fn crc_shifts(crc: u16, n: nat) -> u16
    decreases n,
{
    if n == 0 {
        crc
    } else {
        crc_shift(crc_shifts(crc, (n - 1) as nat))
    }
}

/// The checksum register after one more byte: the byte is folded into the
/// low half, then the register is shifted eight times.
pub open spec fn crc_byte(crc: u16, byte: u8) -> u16 {
    crc_shifts(crc ^ (byte as u16), 8)
}

/// The Modbus CRC-16 of a byte string: the register starts at `0xFFFF` and
/// takes the bytes in order.
pub open spec fn crc16_of(data: Seq<u8>) -> u16
    decreases data.len(),
{
    if data.len() == 0 {
        0xFFFF
    } else {
        crc_byte(crc16_of(data.drop_last()), data.last())
    }
}

/// Calculate Modbus CRC-16 (for manual frame building if needed)
pub fn calculate_crc16(data: &[u8]) -> (crc: u16)
    ensures
        crc == crc16_of(data@),
{
    let mut crc: u16 = 0xFFFF;
    let mut i: usize = 0;
    assert(data@.take(0) =~= Seq::<u8>::empty());
    while i < data.len()
        invariant
            i <= data@.len(),
            crc == crc16_of(data@.take(i as int)),
        decreases data@.len() - i,
    {
        let ghost start = crc ^ (data@[i as int] as u16);
        crc ^= data[i] as u16;
        let mut j: u8 = 0;
        while j < 8
            invariant
                j <= 8,
                crc == crc_shifts(start, j as nat),
            decreases 8 - j,
        {
            if crc & 0x0001 != 0 {
                crc = (crc >> 1) ^ 0xA001;
            } else {
                crc >>= 1;
            }
            j += 1;
        }
        proof {
            let upto = data@.take(i + 1);
            assert(upto.drop_last() =~= data@.take(i as int));
            assert(upto.last() == data@[i as int]);
        }
        i += 1;
    }
    assert(data@.take(data@.len() as int) =~= data@);
    crc
}

/// The six bytes of a read-holding-registers request in front of its
/// checksum: unit, function code 3, then start and count, high byte first.
pub open spec fn read_holding_body(unit_id: u8, start: u16, count: u16) -> Seq<u8> {
    seq![
        unit_id,
        0x03u8,
        (start / 256) as u8,
        (start % 256) as u8,
        (count / 256) as u8,
        (count % 256) as u8,
    ]
}

/// A complete read-holding-registers request: the body, then its checksum,
/// low byte first.
pub open spec fn read_holding_frame(unit_id: u8, start: u16, count: u16) -> Seq<u8> {
    let body = read_holding_body(unit_id, start, count);
    body.push((crc16_of(body) % 256) as u8).push((crc16_of(body) / 256) as u8)
}

/// Build a read holding registers request (for testing)
pub fn build_read_holding_request(unit_id: u8, start: u16, count: u16) -> (frame: Vec<u8>)
    ensures
        frame@ == read_holding_frame(unit_id, start, count),
{
    let mut frame: Vec<u8> = Vec::new();
    frame.push(unit_id);
    frame.push(0x03);
    frame.push((start / 256) as u8);
    frame.push((start % 256) as u8);
    frame.push((count / 256) as u8);
    frame.push((count % 256) as u8);
    assert(frame@ =~= read_holding_body(unit_id, start, count));
    let crc = calculate_crc16(frame.as_slice());
    frame.push((crc % 256) as u8);
    frame.push((crc / 256) as u8);
    frame
}

/// The unit that a request frame is to be served as: the unit named in its
/// first byte, if the frame has at least four bytes and names this slave or
/// is a broadcast to unit zero. Any other frame is not for this slave.
pub open spec fn unit_to_serve(request: Seq<u8>) -> Option<u8> {
    if request.len() >= 4 && (request[0] == SLAVE_ADDRESS || request[0] == 0) {
        Some(request[0])
    } else {
        None
    }
}

/// Decides whether a request frame is for this slave, and as which unit it
/// is to be served.
pub fn addressed_unit(request: &[u8]) -> (unit: Option<u8>)
    ensures
        unit == unit_to_serve(request@),
{
    if request.len() < 4 {
        return None;
    }
    let unit_id = request[0];
    if unit_id != SLAVE_ADDRESS && unit_id != 0 {
        return None;
    }
    Some(unit_id)
}

} // verus!
