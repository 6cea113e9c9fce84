use pc_monitor::system_info::{GpuInfo, SystemInfo, ABSENT, MIB};

const GIB: u64 = 1024 * 1024 * 1024;

const REPORT: &str = r#"<?xml version="1.0" ?>
<!DOCTYPE nvidia_smi_log SYSTEM "nvsmi_device_v12.dtd">
<nvidia_smi_log>
	<timestamp>Wed Oct 28 10:00:00 2026</timestamp>
	<driver_version>550.54.14</driver_version>
	<attached_gpus>1</attached_gpus>
	<gpu id="00000000:01:00.0">
		<product_name>NVIDIA GeForce RTX 3070</product_name>
		<fb_memory_usage>
			<total>8192 MiB</total>
			<reserved>225 MiB</reserved>
			<used>2048 MiB</used>
			<free>5919 MiB</free>
		</fb_memory_usage>
		<utilization>
			<gpu_util>45 %</gpu_util>
			<memory_util>12 %</memory_util>
		</utilization>
	</gpu>
</nvidia_smi_log>
"#;

fn report_with(usage: &str, total: &str, used: &str) -> String {
    format!(
        "<nvidia_smi_log><gpu><utilization><gpu_util>{}</gpu_util></utilization>\
         <fb_memory_usage><total>{}</total><used>{}</used></fb_memory_usage></gpu></nvidia_smi_log>",
        usage, total, used
    )
}

#[test]
fn sample_is_read_from_a_report() {
    assert_eq!(
        GpuInfo::get_gpu_info(REPORT),
        Some(GpuInfo { gpu_usage: 45, vram_max: 8192, vram_used: 2048 })
    );
}

#[test]
fn sample_is_read_from_a_bare_report() {
    assert_eq!(
        GpuInfo::get_gpu_info(&report_with("3 %", "24564 MiB", "0 MiB")),
        Some(GpuInfo { gpu_usage: 3, vram_max: 24564, vram_used: 0 })
    );
}

#[test]
fn no_sample_where_a_reading_is_not_a_number() {
    assert_eq!(GpuInfo::get_gpu_info(&report_with("N/A", "8192 MiB", "2048 MiB")), None);
    assert_eq!(GpuInfo::get_gpu_info(&report_with("45 %", "N/A", "2048 MiB")), None);
    assert_eq!(GpuInfo::get_gpu_info(&report_with("45 %", "8192 MiB", "[N/A]")), None);
    assert_eq!(GpuInfo::get_gpu_info(&report_with("45 %", "8192 MiB", "")), None);
}

#[test]
fn no_sample_where_an_entry_is_missing() {
    let no_used = "<nvidia_smi_log><gpu><utilization><gpu_util>45 %</gpu_util></utilization>\
                   <fb_memory_usage><total>8192 MiB</total></fb_memory_usage></gpu></nvidia_smi_log>";
    let no_usage = "<nvidia_smi_log><gpu><fb_memory_usage><total>8192 MiB</total>\
                    <used>1 MiB</used></fb_memory_usage></gpu></nvidia_smi_log>";
    let no_gpu = "<nvidia_smi_log><attached_gpus>0</attached_gpus></nvidia_smi_log>";
    assert_eq!(GpuInfo::get_gpu_info(no_used), None);
    assert_eq!(GpuInfo::get_gpu_info(no_usage), None);
    assert_eq!(GpuInfo::get_gpu_info(no_gpu), None);
}

#[test]
fn no_sample_from_what_is_no_report() {
    assert_eq!(GpuInfo::get_gpu_info(""), None);
    assert_eq!(GpuInfo::get_gpu_info("NVIDIA-SMI has failed"), None);
    assert_eq!(GpuInfo::get_gpu_info("<nvidia_smi_log><gpu>"), None);
    assert_eq!(GpuInfo::get_gpu_info("{\"nvidia_smi_log\": 1}"), None);
}

#[test]
fn no_sample_from_broken_markup() {
    let broken = [
        "<",
        "<a",
        "</a>",
        "<a></b>",
        "<!--",
        "<![CDATA[",
        "<![CDATA[45 %]]>",
        "<?xml",
        "&",
        "&amp",
        "&#x;",
        "<a b=>",
        "<a b=\"1\" b=\"2\"/>",
        "<nvidia_smi_log><gpu><utilization><gpu_util>45 %</utilization></gpu>",
        "\u{feff}",
        "\0\0\0",
    ];
    for report in broken {
        assert_eq!(GpuInfo::get_gpu_info(report), None);
    }
}

#[test]
fn no_sample_from_a_reading_in_a_cdata_section() {
    let report = report_with("<![CDATA[45 %]]>", "8192 MiB", "2048 MiB");
    assert_eq!(GpuInfo::get_gpu_info(&report), None);
}

#[test]
fn sample_is_read_through_character_references_and_blanks() {
    let report = report_with("4&#53; %", " 8192 MiB ", "2048");
    assert_eq!(
        GpuInfo::get_gpu_info(&report),
        Some(GpuInfo { gpu_usage: 45, vram_max: 8192, vram_used: 2048 })
    );
}

#[test]
fn no_sample_from_a_report_of_two_gpus() {
    let gpu = "<gpu><utilization><gpu_util>45 %</gpu_util></utilization>\
               <fb_memory_usage><total>8192 MiB</total><used>1 MiB</used></fb_memory_usage></gpu>";
    let report = format!("<nvidia_smi_log>{}{}</nvidia_smi_log>", gpu, gpu);
    assert_eq!(GpuInfo::get_gpu_info(&report), None);
}

#[test]
fn no_sample_from_a_report_with_a_cdata_element() {
    let sound = report_with("45 %", "8192 MiB", "1 MiB");
    let report = format!("{}<#cdata></#cdata><![CDATA[x]]>", sound);
    assert_eq!(GpuInfo::get_gpu_info(&report), None);
    assert_eq!(GpuInfo::get_gpu_info("<#cdata"), None);
}

#[test]
fn sample_from_entries() {
    let entry = |text: &str| Some(text.to_string());
    assert_eq!(
        GpuInfo::from_entries(entry("\"45 %\""), entry("\"8192 MiB\""), entry("\"2048 MiB\"")),
        Some(GpuInfo { gpu_usage: 45, vram_max: 8192, vram_used: 2048 })
    );
    let total = "\"8192 MiB\"";
    let used = "\"2048 MiB\"";
    assert_eq!(GpuInfo::from_entries(None, entry(total), entry(used)), None);
    assert_eq!(GpuInfo::from_entries(entry("\"45 %\""), None, entry(used)), None);
    assert_eq!(GpuInfo::from_entries(entry("\"45 %\""), entry(total), None), None);
    assert_eq!(GpuInfo::from_entries(entry("null"), entry(total), entry(used)), None);
}

#[test]
fn snapshot_of_sixteen_gib_of_memory() {
    let info: SystemInfo =
        SystemInfo::from_readings(17_179_869_184, 4 * GIB, vec![10, 20, 30], None);
    assert_eq!(info.ram_max, 160);
    assert_eq!(info.ram_unit, *b"GB\0\0");
    assert_eq!(info.ram_usage, 25);
    assert_eq!(info.cpu_usage, 20);
}

#[test]
fn snapshot_without_a_gpu() {
    let info: SystemInfo = SystemInfo::from_readings(8 * GIB, GIB, vec![50], None);
    assert_eq!(ABSENT, 255);
    assert_eq!(info.gpu_usage, 255);
    assert_eq!(info.vram_usage, 255);
    assert_eq!(info.vram_max, 0);
    assert_eq!(info.vram_unit, *b"B\0\0\0");
}

#[test]
fn snapshot_with_a_gpu() {
    let gpu = GpuInfo { gpu_usage: 45, vram_max: 8192, vram_used: 2048 };
    let info: SystemInfo = SystemInfo::from_readings(32 * GIB, 8 * GIB, vec![10, 11], Some(gpu));
    assert_eq!(
        info,
        SystemInfo {
            cpu_usage: 10,
            ram_max: 320,
            ram_usage: 25,
            ram_unit: *b"GB\0\0",
            gpu_usage: 45,
            vram_max: 80,
            vram_usage: 25,
            vram_unit: *b"GB\0\0",
        }
    );
}

#[test]
fn snapshot_shows_memory_of_a_full_power_one_unit_lower() {
    assert_eq!(MIB, 1024 * 1024);
    let gpu = GpuInfo { gpu_usage: 0, vram_max: 1024, vram_used: 0 };
    let info: SystemInfo = SystemInfo::from_readings(GIB, 0, vec![0], Some(gpu));
    assert_eq!(info.ram_max, 10240);
    assert_eq!(info.ram_unit, *b"MB\0\0");
    assert_eq!(info.vram_max, 10240);
    assert_eq!(info.vram_unit, *b"MB\0\0");
    let above: SystemInfo = SystemInfo::from_readings(GIB + 1, 0, vec![0], None);
    assert_eq!(above.ram_max, 10);
    assert_eq!(above.ram_unit, *b"GB\0\0");
}

#[test]
fn snapshot_of_empty_totals() {
    let gpu = GpuInfo { gpu_usage: 7, vram_max: 0, vram_used: 5 };
    let info: SystemInfo = SystemInfo::from_readings(0, 12, Vec::new(), Some(gpu));
    assert_eq!(
        info,
        SystemInfo {
            cpu_usage: 0,
            ram_max: 0,
            ram_usage: 0,
            ram_unit: *b"B\0\0\0",
            gpu_usage: 7,
            vram_max: 0,
            vram_usage: 0,
            vram_unit: *b"B\0\0\0",
        }
    );
}

#[test]
fn snapshot_keeps_the_low_byte_of_an_oversized_usage() {
    let gpu = GpuInfo { gpu_usage: 300, vram_max: 100, vram_used: 50 };
    let info: SystemInfo = SystemInfo::from_readings(GIB, GIB, vec![256 + 17], Some(gpu));
    assert_eq!(info.cpu_usage, 17);
    assert_eq!(info.gpu_usage, 44);
    assert_eq!(info.ram_usage, 100);
    assert_eq!(info.vram_usage, 50);
}

#[test]
fn snapshot_of_gpu_memory_beyond_64_bits_of_bytes() {
    let gpu = GpuInfo { gpu_usage: 1, vram_max: u64::MAX, vram_used: u64::MAX };
    let info: SystemInfo = SystemInfo::from_readings(GIB, GIB, vec![1], Some(gpu));
    assert_eq!(info.vram_max, 65535);
    assert_eq!(info.vram_unit, *b"TB\0\0");
    assert_eq!(info.vram_usage, 100);
}

#[test]
fn snapshot_from_readings_and_a_report() {
    let info: SystemInfo =
        SystemInfo::get_system_info(17_179_869_184, 8 * GIB, vec![10, 20, 30], Some(REPORT));
    assert_eq!(
        info,
        SystemInfo {
            cpu_usage: 20,
            ram_max: 160,
            ram_usage: 50,
            ram_unit: *b"GB\0\0",
            gpu_usage: 45,
            vram_max: 80,
            vram_usage: 25,
            vram_unit: *b"GB\0\0",
        }
    );
    assert_eq!(
        info.to_frame(),
        [20, 160, 0, 50, b'G', b'B', 0, 0, 45, 80, 0, 25, b'G', b'B', 0, 0]
    );
}

#[test]
fn snapshot_from_readings_without_a_report() {
    let none: SystemInfo = SystemInfo::get_system_info(GIB, 0, vec![5], None);
    let unreadable: SystemInfo = SystemInfo::get_system_info(GIB, 0, vec![5], Some("no devices"));
    assert_eq!(none, SystemInfo::from_readings(GIB, 0, vec![5], None));
    assert_eq!(unreadable, none);
    assert_eq!(none.to_frame(), [5, 0, 40, 0, b'M', b'B', 0, 0, 255, 0, 0, 255, b'B', 0, 0, 0]);
}
