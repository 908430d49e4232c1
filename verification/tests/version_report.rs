use rffmpeg::version::{version, FFmpegVersion, FFmpegVersionsInfo, RawVersions};

fn raw(major: u32, minor: u32, micro: u32) -> u32 {
    (major << 16) | (minor << 8) | micro
}

fn all_absent(avutil: u32, product: Option<String>) -> RawVersions {
    RawVersions {
        avutil,
        avcodec: None,
        avformat: None,
        avdevice: None,
        avfilter: None,
        swscale: None,
        swresample: None,
        avresample: None,
        postproc: None,
        product,
    }
}

fn all_present(avutil: u32, optional: u32, product: Option<String>) -> RawVersions {
    RawVersions {
        avutil,
        avcodec: Some(optional),
        avformat: Some(optional),
        avdevice: Some(optional),
        avfilter: Some(optional),
        swscale: Some(optional),
        swresample: Some(optional),
        avresample: Some(optional),
        postproc: Some(optional),
        product,
    }
}

#[test]
fn test_version_info() {
    // Raw integers as a current installation would report them.
    let inputs = RawVersions {
        avutil: raw(58, 17, 100),
        avcodec: Some(raw(60, 10, 100)),
        avformat: Some(raw(60, 12, 101)),
        avdevice: None,
        avfilter: None,
        swscale: None,
        swresample: None,
        avresample: None,
        postproc: None,
        product: Some(String::from("6.0")),
    };
    let versions = version(inputs.clone());

    println!("\nUsing Display trait: {}", versions.display_string());

    println!(
        "\nVersion consistency check: {}",
        if versions.is_consistent() {
            "OK"
        } else {
            "INCONSISTENT"
        }
    );

    println!("\nAccessing individual versions:");
    println!("libavutil version: {}", versions.avutil.render());
    println!(
        "libavcodec version: {}",
        versions.avcodec.as_ref().unwrap().render()
    );
    println!(
        "libavformat version: {}",
        versions.avformat.as_ref().unwrap().render()
    );

    let default_versions = FFmpegVersionsInfo::new(inputs);
    assert!(default_versions.avutil.major >= 50); // Reasonable minimum version

    assert!(versions.avutil.major >= 50); // Reasonable minimum version
    assert!(versions.avcodec.as_ref().unwrap().major >= 50); // Reasonable minimum version
    assert!(versions.avformat.as_ref().unwrap().major >= 50); // Reasonable minimum version
    assert!(versions.is_consistent()); // Should be consistent
}

#[test]
fn decode_extracts_each_byte_field() {
    let v = FFmpegVersionsInfo::decode_version(0x003A0064);
    assert_eq!(v.major, 58);
    assert_eq!(v.minor, 0);
    assert_eq!(v.micro, 100);

    let v = FFmpegVersionsInfo::decode_version(0xFFFFFFFF);
    assert_eq!(v.major, 255);
    assert_eq!(v.minor, 255);
    assert_eq!(v.micro, 255);

    let v = FFmpegVersionsInfo::decode_version(0);
    assert_eq!(v.major, 0);
    assert_eq!(v.minor, 0);
    assert_eq!(v.micro, 0);

    // Bits above the major field are ignored by the three masks.
    let v = FFmpegVersionsInfo::decode_version(0xAB123456);
    assert_eq!(v.major, 0x12);
    assert_eq!(v.minor, 0x34);
    assert_eq!(v.micro, 0x56);
    assert!(v.major <= 255 && v.minor <= 255 && v.micro <= 255);
}

#[test]
fn decoded_version_renders_in_decimal() {
    let v = FFmpegVersionsInfo::decode_version(0x003A0064);
    assert_eq!(v.render(), "58.0.100");

    let v = FFmpegVersionsInfo::decode_version(0x00FFFFFF);
    assert_eq!(v.render(), "255.255.255");

    let v = FFmpegVersion {
        major: 0,
        minor: 0,
        micro: 0,
    };
    assert_eq!(v.render(), "0.0.0");

    let v = FFmpegVersion {
        major: 7,
        minor: 10,
        micro: 205,
    };
    assert_eq!(v.render(), "7.10.205");
}

#[test]
fn all_present_at_or_above_threshold_is_consistent() {
    let r = version(all_present(0x003A0000, raw(58, 0, 0), None));
    assert!(r.is_consistent());

    let r = version(all_present(0x003A0000, raw(61, 3, 100), Some(String::from("6.0"))));
    assert!(r.is_consistent());

    // Absent optional libraries impose no constraint.
    let r = version(all_absent(0x003A0000, None));
    assert!(r.is_consistent());
}

#[test]
fn one_optional_below_threshold_is_inconsistent() {
    let mut inputs = all_present(0x003A0000, raw(58, 0, 0), None);
    inputs.avcodec = Some(raw(57, 9, 255));
    assert!(!version(inputs).is_consistent());

    // Every present optional library counts, the last one too.
    let mut inputs = all_present(0x003A0000, raw(58, 0, 0), None);
    inputs.postproc = Some(raw(57, 0, 0));
    assert!(!version(inputs).is_consistent());
}

#[test]
fn mandatory_library_below_threshold_is_inconsistent() {
    let r = version(all_absent(raw(57, 255, 255), None));
    assert!(!r.is_consistent());

    let r = version(all_present(raw(57, 0, 0), raw(61, 0, 0), None));
    assert!(!r.is_consistent());
}

#[test]
fn missing_product_string_degrades_to_unknown() {
    let r = version(all_absent(0x003A0064, None));
    assert_eq!(r.ffmpeg_version, "Unknown");
    assert!(r.display_string().starts_with("ffmpeg=Unknown, "));
    assert_eq!(r.display_string(), "ffmpeg=Unknown, libavutil=58.0.100");
}

#[test]
fn supplied_product_string_is_kept() {
    let r = version(all_absent(0x003A0064, Some(String::from("n6.0.1"))));
    assert_eq!(r.ffmpeg_version, "n6.0.1");
    assert!(r.display_string().starts_with("ffmpeg=n6.0.1, "));
}

#[test]
fn formatting_entry_points_agree() {
    let reports = [
        version(all_absent(0x003A0064, None)),
        version(all_absent(0, Some(String::from("")))),
        version(all_present(raw(58, 17, 100), raw(60, 3, 100), Some(String::from("6.0")))),
        {
            let mut inputs = all_absent(raw(58, 17, 100), Some(String::from("6.0")));
            inputs.avformat = Some(raw(60, 12, 101));
            inputs.swresample = Some(raw(4, 9, 100));
            version(inputs)
        },
    ];
    for r in reports.iter() {
        assert_eq!(r.display_string(), r.full_string());
    }
}

#[test]
fn report_lists_mandatory_first_then_present_in_declared_order() {
    let mut inputs = all_absent(raw(58, 0, 100), Some(String::from("6.0")));
    inputs.avcodec = Some(raw(60, 3, 100));
    inputs.swresample = Some(raw(4, 9, 100));
    let r = version(inputs);
    // Absent libraries contribute no segment; present ones keep the
    // declared order even when built in another order.
    assert_eq!(
        r.full_string(),
        "ffmpeg=6.0, libavutil=58.0.100, libavcodec=60.3.100, libswresample=4.9.100"
    );

    let r = version(all_present(raw(58, 1, 2), raw(59, 0, 255), None));
    assert_eq!(
        r.full_string(),
        "ffmpeg=Unknown, libavutil=58.1.2, \
         libavcodec=59.0.255, libavformat=59.0.255, libavdevice=59.0.255, \
         libavfilter=59.0.255, libswscale=59.0.255, libswresample=59.0.255, \
         libavresample=59.0.255, libpostproc=59.0.255"
    );
}

#[test]
fn absent_raw_entries_stay_absent() {
    let mut inputs = all_absent(raw(58, 0, 0), None);
    inputs.avfilter = Some(raw(9, 8, 7));
    let r = version(inputs);
    assert!(r.avcodec.is_none());
    assert!(r.avformat.is_none());
    assert!(r.avdevice.is_none());
    let f = r.avfilter.as_ref().unwrap();
    assert_eq!(f.major, 9);
    assert_eq!(f.minor, 8);
    assert_eq!(f.micro, 7);
    assert!(r.swscale.is_none());
    assert!(r.swresample.is_none());
    assert!(r.avresample.is_none());
    assert!(r.postproc.is_none());
}
