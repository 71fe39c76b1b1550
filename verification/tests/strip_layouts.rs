use rpi_ws281x_c::StripType;

const ALL: [StripType; 6] = [
    StripType::Rgb,
    StripType::Rbg,
    StripType::Grb,
    StripType::Gbr,
    StripType::Brg,
    StripType::Bgr,
];

#[test]
fn layout_codes_match_protocol_table() {
    assert_eq!(StripType::Rgb.code(), 0x0010_0800);
    assert_eq!(StripType::Rbg.code(), 0x0010_0008);
    assert_eq!(StripType::Grb.code(), 0x0008_1000);
    assert_eq!(StripType::Gbr.code(), 0x0008_0010);
    assert_eq!(StripType::Brg.code(), 0x0000_1008);
    assert_eq!(StripType::Bgr.code(), 0x0000_0810);
}

#[test]
fn shifts_are_the_bytes_of_the_code() {
    for s in ALL {
        assert_eq!(s.red_shift(), (s.code() >> 16) & 0xff);
        assert_eq!(s.green_shift(), (s.code() >> 8) & 0xff);
        assert_eq!(s.blue_shift(), s.code() & 0xff);
    }
}

#[test]
fn packed_words_are_exact() {
    assert_eq!(StripType::Rgb.pack(0x12, 0x34, 0x56), 0x0012_3456);
    assert_eq!(StripType::Rbg.pack(0x12, 0x34, 0x56), 0x0012_5634);
    assert_eq!(StripType::Grb.pack(0x12, 0x34, 0x56), 0x0034_1256);
    assert_eq!(StripType::Gbr.pack(0x12, 0x34, 0x56), 0x0056_1234);
    assert_eq!(StripType::Brg.pack(0x12, 0x34, 0x56), 0x0034_5612);
    assert_eq!(StripType::Bgr.pack(0x12, 0x34, 0x56), 0x0056_3412);
}

#[test]
fn round_trip_under_every_layout() {
    let triplets = [
        (255u8, 0u8, 0u8),
        (0, 255, 0),
        (0, 0, 255),
        (0, 0, 0),
        (255, 255, 255),
        (0x12, 0x34, 0x56),
        (1, 128, 254),
    ];
    for s in ALL {
        for (r, g, b) in triplets {
            let w = s.pack(r, g, b);
            assert_eq!(s.red_of(w), r);
            assert_eq!(s.green_of(w), g);
            assert_eq!(s.blue_of(w), b);
        }
    }
}
