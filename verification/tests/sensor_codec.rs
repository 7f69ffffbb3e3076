use eclipsecon_mesh::sensor::{
    Acceleration, InsufficientBuffer, MicrobitSensorConfig, ParseError, RawMessage,
    SensorDescriptor, SensorPayload, PROP_NOISE, PROP_TEMP, PROP_XL,
};

fn payload(temperature: i8, x: i16, y: i16, z: i16, noise: u8) -> SensorPayload {
    SensorPayload {
        temperature,
        acceleration: Acceleration { x, y, z },
        noise,
    }
}

#[test]
fn defaults_are_zero() {
    assert_eq!(Acceleration::default(), Acceleration { x: 0, y: 0, z: 0 });
    assert_eq!(SensorPayload::default(), payload(0, 0, 0, 0, 0));
}

#[test]
fn decode_temperature_is_signed() {
    let mut p = SensorPayload::default();
    assert_eq!(p.decode(PROP_TEMP, &[0xFE]), Ok(()));
    assert_eq!(p, payload(-2, 0, 0, 0, 0));
    assert_eq!(p.decode(PROP_TEMP, &[0x7F, 0x00]), Ok(()));
    assert_eq!(p.temperature, 127);
}

#[test]
fn decode_acceleration_little_endian() {
    let mut p = payload(5, 9, 9, 9, 7);
    assert_eq!(
        p.decode(PROP_XL, &[0x01, 0x00, 0xFF, 0xFF, 0x00, 0x80]),
        Ok(())
    );
    assert_eq!(p, payload(5, 1, -1, -32768, 7));
}

#[test]
fn decode_noise() {
    let mut p = payload(1, 2, 3, 4, 0);
    assert_eq!(p.decode(PROP_NOISE, &[200]), Ok(()));
    assert_eq!(p, payload(1, 2, 3, 4, 200));
}

#[test]
fn decode_unknown_property_is_refused() {
    let mut p = payload(1, 2, 3, 4, 5);
    assert_eq!(p.decode(0x42, &[1, 2, 3]), Err(ParseError::InvalidValue));
    assert_eq!(p, payload(1, 2, 3, 4, 5));
}

#[test]
fn encode_each_property() {
    let p = payload(-2, 1, -1, -32768, 200);
    let mut buf: heapless::Vec<u8, 386> = heapless::Vec::new();
    assert_eq!(p.encode(PROP_TEMP, &mut buf), Ok(()));
    assert_eq!(buf.as_slice(), &[0xFE]);
    assert_eq!(p.encode(PROP_XL, &mut buf), Ok(()));
    assert_eq!(buf.as_slice(), &[0xFE, 0x01, 0x00, 0xFF, 0xFF, 0x00, 0x80]);
    assert_eq!(p.encode(PROP_NOISE, &mut buf), Ok(()));
    assert_eq!(buf.as_slice(), &[0xFE, 0x01, 0x00, 0xFF, 0xFF, 0x00, 0x80, 200]);
}

#[test]
fn encode_unknown_property_writes_nothing() {
    let p = payload(1, 2, 3, 4, 5);
    let mut buf: heapless::Vec<u8, 386> = heapless::Vec::new();
    assert_eq!(p.encode(0x1234, &mut buf), Ok(()));
    assert!(buf.is_empty());
}

#[test]
fn encode_acceleration_into_nearly_full_buffer_keeps_what_fitted() {
    let p = payload(0, 0x0102, 0x0304, 0x0506, 0);
    let mut buf: heapless::Vec<u8, 386> = heapless::Vec::new();
    buf.extend_from_slice(&[0u8; 383]).unwrap();
    assert_eq!(p.encode(PROP_XL, &mut buf), Err(InsufficientBuffer));
    assert_eq!(buf.len(), 385);
    assert_eq!(&buf[383..], &[0x02, 0x01]);
}

#[test]
fn encode_into_full_buffer_fails() {
    let p = payload(3, 0, 0, 0, 9);
    let mut buf: heapless::Vec<u8, 386> = heapless::Vec::new();
    buf.extend_from_slice(&[7u8; 386]).unwrap();
    assert_eq!(p.encode(PROP_TEMP, &mut buf), Err(InsufficientBuffer));
    assert_eq!(p.encode(PROP_NOISE, &mut buf), Err(InsufficientBuffer));
    assert_eq!(buf.len(), 386);
}

#[test]
fn encode_then_decode_gives_back_each_property() {
    let p = payload(-100, 12345, -23456, 7, 99);
    for id in [PROP_TEMP, PROP_XL, PROP_NOISE] {
        let mut buf: heapless::Vec<u8, 386> = heapless::Vec::new();
        p.encode(id, &mut buf).unwrap();
        let mut q = SensorPayload::default();
        q.decode(id, buf.as_slice()).unwrap();
        if id == PROP_TEMP {
            assert_eq!(q.temperature, p.temperature);
        } else if id == PROP_XL {
            assert_eq!(q.acceleration, p.acceleration);
        } else {
            assert_eq!(q.noise, p.noise);
        }
    }
}

#[test]
fn descriptors_match_encoded_sizes() {
    let d = MicrobitSensorConfig::descriptors();
    assert_eq!(
        d,
        vec![
            SensorDescriptor { id: PROP_TEMP, size: 1 },
            SensorDescriptor { id: PROP_XL, size: 6 },
            SensorDescriptor { id: PROP_NOISE, size: 1 },
        ]
    );
    let p = payload(1, 2, 3, 4, 5);
    for desc in d {
        let mut buf: heapless::Vec<u8, 386> = heapless::Vec::new();
        p.encode(desc.id, &mut buf).unwrap();
        assert_eq!(buf.len(), desc.size as usize);
    }
}

#[test]
fn emit_parameters_appends_or_refuses() {
    let m = RawMessage {
        address: None,
        location: 0,
        opcode: vec![0x82, 0x02],
        parameters: vec![1, 0],
    };
    let mut buf: heapless::Vec<u8, 386> = heapless::Vec::new();
    buf.push(9).unwrap();
    assert_eq!(m.emit_parameters(&mut buf), Ok(()));
    assert_eq!(buf.as_slice(), &[9, 1, 0]);

    let mut full: heapless::Vec<u8, 386> = heapless::Vec::new();
    full.extend_from_slice(&[0u8; 385]).unwrap();
    assert_eq!(m.emit_parameters(&mut full), Err(InsufficientBuffer));
    assert_eq!(full.len(), 385);
}
