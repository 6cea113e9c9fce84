use pc_monitor::frame::FRAME_LEN;
use pc_monitor::system_info::SystemInfo;

fn sample() -> SystemInfo {
    SystemInfo {
        cpu_usage: 20,
        ram_max: 160,
        ram_usage: 42,
        ram_unit: *b"GB\0\0",
        gpu_usage: 45,
        vram_max: 0x1234,
        vram_usage: 25,
        vram_unit: *b"MB\0\0",
    }
}

#[test]
fn frame_has_the_packed_layout() {
    let frame: [u8; 16] = sample().to_frame();
    assert_eq!(
        frame,
        [20, 160, 0, 42, b'G', b'B', 0, 0, 45, 0x34, 0x12, 25, b'M', b'B', 0, 0]
    );
}

#[test]
fn frame_is_sixteen_bytes() {
    assert_eq!(FRAME_LEN, 16);
    assert_eq!(sample().to_frame().len(), 16);
}

#[test]
fn frame_reads_back_to_the_snapshot() {
    let info: SystemInfo = sample();
    assert_eq!(SystemInfo::from_frame(&info.to_frame()), Some(info));
}

#[test]
fn frame_reads_back_at_the_edges_of_every_field() {
    let low = SystemInfo {
        cpu_usage: 0,
        ram_max: 0,
        ram_usage: 0,
        ram_unit: [0; 4],
        gpu_usage: 0,
        vram_max: 0,
        vram_usage: 0,
        vram_unit: [0; 4],
    };
    let high = SystemInfo {
        cpu_usage: 255,
        ram_max: 65535,
        ram_usage: 255,
        ram_unit: [255; 4],
        gpu_usage: 255,
        vram_max: 65535,
        vram_usage: 255,
        vram_unit: [255; 4],
    };
    assert_eq!(low.to_frame(), [0u8; 16]);
    assert_eq!(high.to_frame(), [255u8; 16]);
    assert_eq!(SystemInfo::from_frame(&low.to_frame()), Some(low));
    assert_eq!(SystemInfo::from_frame(&high.to_frame()), Some(high));
}

#[test]
fn sixteen_bytes_write_back_as_they_were_read() {
    let bytes: [u8; 16] = [1, 2, 3, 4, 5, 6, 7, 8, 9, 10, 11, 12, 13, 14, 15, 16];
    let info: SystemInfo = SystemInfo::from_frame(&bytes).unwrap();
    assert_eq!(info.ram_max, 2 + 3 * 256);
    assert_eq!(info.vram_max, 10 + 11 * 256);
    assert_eq!(info.ram_unit, [5, 6, 7, 8]);
    assert_eq!(info.vram_unit, [13, 14, 15, 16]);
    assert_eq!(info.to_frame(), bytes);
}

#[test]
fn other_lengths_are_no_frame() {
    assert_eq!(SystemInfo::from_frame(&[]), None);
    assert_eq!(SystemInfo::from_frame(&[0u8; 15]), None);
    assert_eq!(SystemInfo::from_frame(&[0u8; 17]), None);
}

#[test]
fn frame_is_what_bincode_writes_for_the_fields() {
    let info: SystemInfo = sample();
    let fields = (
        info.cpu_usage,
        info.ram_max,
        info.ram_usage,
        info.ram_unit,
        info.gpu_usage,
        info.vram_max,
        info.vram_usage,
        info.vram_unit,
    );
    let written: Vec<u8> = bincode::serialize(&fields).unwrap();
    assert_eq!(written, info.to_frame().to_vec());
}
