use controller_emulator::gadget::{
    write_file, write_file_byte, write_file_int, write_file_str, Config, FsAction, Gadget,
    HIDFunction, Speed,
};

fn expect_write(action: &FsAction, path: &str, contents: &[u8]) {
    match action {
        FsAction::WriteFileAt { path: p, contents: c } => {
            assert_eq!(p, path);
            assert_eq!(c, &contents.to_vec());
        }
        _ => panic!("expected a file write at {}", path),
    }
}

#[test]
fn speed_names() {
    assert_eq!(Speed::LowSpeed.to_string(), "low-speed");
    assert_eq!(Speed::FullSpeed.to_string(), "full-speed");
    assert_eq!(Speed::HighSpeed.to_string(), "high-speed");
    assert_eq!(Speed::SuperSpeed.to_string(), "super-speed");
}

#[test]
fn speed_defaults_to_full_speed() {
    assert!(matches!(Speed::default(), Speed::FullSpeed));
}

#[test]
fn write_file_str_joins_path_and_keeps_contents() {
    let w = write_file_str("/sys/kernel/config/usb_gadget/procons", "product", "Pro Controller");
    assert_eq!(w.path, "/sys/kernel/config/usb_gadget/procons/product");
    assert_eq!(w.contents, b"Pro Controller".to_vec());
}

#[test]
fn write_file_byte_renders_two_hex_digits() {
    let w = write_file_byte("/base", "bDeviceClass", 0x00);
    assert_eq!(w.path, "/base/bDeviceClass");
    assert_eq!(w.contents, b"0x00".to_vec());
    assert_eq!(write_file_byte("/b", "n", 0xab).contents, b"0xab".to_vec());
    assert_eq!(write_file_byte("/b", "n", 0x40).contents, b"0x40".to_vec());
    assert_eq!(write_file_byte("/b", "n", 0xff).contents, b"0xff".to_vec());
}

#[test]
fn write_file_int_renders_at_least_four_hex_digits() {
    assert_eq!(write_file_int("/b", "idVendor", 0x057e).contents, b"0x057e".to_vec());
    assert_eq!(write_file_int("/b", "idProduct", 0x2009).contents, b"0x2009".to_vec());
    assert_eq!(write_file_int("/b", "bcdUSB", 0x0200).contents, b"0x0200".to_vec());
    assert_eq!(write_file_int("/b", "n", 0).contents, b"0x0000".to_vec());
    assert_eq!(write_file_int("/b", "n", 0xffff).contents, b"0xffff".to_vec());
    // wider values keep all their digits
    assert_eq!(write_file_int("/b", "n", 0x12345).contents, b"0x12345".to_vec());
    assert_eq!(write_file_int("/b", "n", 0xdeadbeef).contents, b"0xdeadbeef".to_vec());
}

#[test]
fn write_file_keeps_raw_bytes() {
    let w = write_file("/base/functions/hid.usb.0", "report_desc", &vec![0x05, 0x01, 0x09]);
    assert_eq!(w.path, "/base/functions/hid.usb.0/report_desc");
    assert_eq!(w.contents, vec![0x05, 0x01, 0x09]);
}

#[test]
fn create_config_plans_the_whole_tree() {
    let gadget = Gadget {
        max_speed: Speed::HighSpeed,
        device_class: 0,
        device_sub_class: 0,
        device_protocol: 0,
        device_max_packet_size: 64,
        device_version: 0x0200,
        usb_version: 0x0200,
        product_id: 0x2009,
        vendor_id: 0x057e,
        configs: vec![Config {
            attributes: 0xa0,
            max_power: 500,
            description: String::from("Pro Controller"),
            hid_functions: vec![0, 1],
        }],
        hid_functions: vec![
            HIDFunction {
                protocol: 0,
                report_desc: vec![0x05, 0x01],
                report_length: 64,
                subclass: 0,
            },
            HIDFunction {
                protocol: 1,
                report_desc: vec![0x06, 0x02],
                report_length: 32,
                subclass: 3,
            },
        ],
        serialnumber: String::from("0001"),
        product: String::from("Pro Controller"),
        manufacturer: String::from("Nintendo Co., Ltd."),
    };
    let plan = gadget.create_config("procons");
    // 13 head actions, 4 per function, 3 + 2 links for the configuration
    assert_eq!(plan.len(), 13 + 8 + 5);

    let base = "/sys/kernel/config/usb_gadget/procons";
    match &plan[0] {
        FsAction::RemoveTree { path } => assert_eq!(path, base),
        _ => panic!("expected the removal first"),
    }
    expect_write(&plan[1], &format!("{}/max_speed", base), b"high-speed");
    expect_write(&plan[2], &format!("{}/bDeviceClass", base), b"0x00");
    expect_write(&plan[5], &format!("{}/bMaxPacketSize0", base), b"0x40");
    expect_write(&plan[6], &format!("{}/bcdDevice", base), b"0x0200");
    expect_write(&plan[8], &format!("{}/idProduct", base), b"0x2009");
    expect_write(&plan[9], &format!("{}/idVendor", base), b"0x057e");
    expect_write(&plan[10], &format!("{}/strings/0x409/serialnumber", base), b"0001");
    expect_write(&plan[12], &format!("{}/strings/0x409/manufacturer", base), "Nintendo Co., Ltd.".as_bytes());

    expect_write(&plan[13], &format!("{}/functions/hid.usb.0/protocol", base), b"0x0000");
    expect_write(&plan[14], &format!("{}/functions/hid.usb.0/report_desc", base), &[0x05, 0x01]);
    expect_write(&plan[15], &format!("{}/functions/hid.usb.0/report_length", base), b"0x0040");
    expect_write(&plan[16], &format!("{}/functions/hid.usb.0/subclass", base), b"0x0000");
    expect_write(&plan[17], &format!("{}/functions/hid.usb.1/protocol", base), b"0x0001");
    expect_write(&plan[20], &format!("{}/functions/hid.usb.1/subclass", base), b"0x0003");

    expect_write(&plan[21], &format!("{}/configs/c.1/bmAttributes", base), b"0xa0");
    expect_write(&plan[22], &format!("{}/configs/c.1/MaxPower", base), b"0x01f4");
    expect_write(
        &plan[23],
        &format!("{}/configs/c.1/strings/0x409/configuration", base),
        b"Pro Controller",
    );
    match &plan[24] {
        FsAction::Symlink { target, link } => {
            assert_eq!(target, &format!("{}/functions/hid.usb.0", base));
            assert_eq!(link, &format!("{}/configs/c.1/hid.usb.0", base));
        }
        _ => panic!("expected the first function link"),
    }
    match &plan[25] {
        FsAction::Symlink { target, link } => {
            assert_eq!(target, &format!("{}/functions/hid.usb.1", base));
            assert_eq!(link, &format!("{}/configs/c.1/hid.usb.1", base));
        }
        _ => panic!("expected the second function link"),
    }
}

#[test]
fn descriptor_defaults_are_empty() {
    let c = Config::default();
    assert_eq!(c.attributes, 0);
    assert_eq!(c.max_power, 0);
    assert_eq!(c.description, "");
    assert!(c.hid_functions.is_empty());

    let f = HIDFunction::default();
    assert_eq!(f.protocol, 0);
    assert!(f.report_desc.is_empty());
    assert_eq!(f.report_length, 0);
    assert_eq!(f.subclass, 0);

    let g = Gadget::default();
    assert!(matches!(g.max_speed, Speed::FullSpeed));
    assert_eq!(g.device_class, 0);
    assert_eq!(g.vendor_id, 0);
    assert!(g.configs.is_empty());
    assert!(g.hid_functions.is_empty());
    assert_eq!(g.serialnumber, "");
    assert_eq!(g.product, "");
    assert_eq!(g.manufacturer, "");
}
