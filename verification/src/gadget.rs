//! USB gadget descriptor data and the pure halves of the configuration
//! writers: each `write_file_*` helper plans one file write — the joined
//! path and the exact bytes — while the caller that owns the filesystem
//! performs it.  Numbers are rendered in the `0x`-prefixed hexadecimal
//! form the configuration tree expects.

use vstd::prelude::*;

verus! {

/// USB bus speed of the gadget.
pub enum Speed {
    LowSpeed,
    FullSpeed,
    HighSpeed,
    SuperSpeed,
}

impl Speed {
    /// The name the configuration tree uses for this speed.
    pub open spec fn spec_name(&self) -> Seq<char> {
        match self {
            Speed::LowSpeed => "low-speed"@,
            Speed::FullSpeed => "full-speed"@,
            Speed::HighSpeed => "high-speed"@,
            Speed::SuperSpeed => "super-speed"@,
        }
    }

    /// Renders the speed under its configuration-tree name.
    pub fn to_string(&self) -> (r: String)
        ensures
            r@ == self.spec_name(),
    {
        match self {
            Speed::LowSpeed => String::from_str("low-speed"),
            Speed::FullSpeed => String::from_str("full-speed"),
            Speed::HighSpeed => String::from_str("high-speed"),
            Speed::SuperSpeed => String::from_str("super-speed"),
        }
    }
}

impl Default for Speed {
    /// Full speed unless the caller chooses otherwise.
    fn default() -> (r: Speed)
        ensures
            r is FullSpeed,
    {
        Speed::FullSpeed
    }
}

/// One USB configuration: its attributes, power budget, description
/// string, and the indices of the HID functions it links.
pub struct Config {
    pub attributes: u8,
    pub max_power: u32,
    pub description: String,
    pub hid_functions: Vec<u32>,
}

impl Default for Config {
    fn default() -> (r: Config)
        ensures
            r.attributes == 0,
            r.max_power == 0,
            r.description@ == Seq::<char>::empty(),
            r.hid_functions@ == Seq::<u32>::empty(),
    {
        proof {
            reveal_strlit("");
        }
        let r = Config {
            attributes: 0,
            max_power: 0,
            description: String::from_str(""),
            hid_functions: Vec::new(),
        };
        proof {
            assert(r.description@ =~= Seq::<char>::empty());
            assert(r.hid_functions@ =~= Seq::<u32>::empty());
        }
        r
    }
}

/// One HID function of the gadget: protocol, report descriptor bytes,
/// report length and subclass.
pub struct HIDFunction {
    pub protocol: u32,
    pub report_desc: Vec<u8>,
    pub report_length: u32,
    pub subclass: u32,
}

impl Default for HIDFunction {
    fn default() -> (r: HIDFunction)
        ensures
            r.protocol == 0,
            r.report_desc@ == Seq::<u8>::empty(),
            r.report_length == 0,
            r.subclass == 0,
    {
        let r = HIDFunction {
            protocol: 0,
            report_desc: Vec::new(),
            report_length: 0,
            subclass: 0,
        };
        proof {
            assert(r.report_desc@ =~= Seq::<u8>::empty());
        }
        r
    }
}

/// The whole gadget descriptor tree: device identity numbers, strings,
/// configurations and HID functions.
pub struct Gadget {
    pub max_speed: Speed,
    pub device_class: u8,
    pub device_sub_class: u8,
    pub device_protocol: u8,
    pub device_max_packet_size: u8,
    pub device_version: u32,
    pub usb_version: u32,
    pub product_id: u32,
    pub vendor_id: u32,
    pub configs: Vec<Config>,
    pub hid_functions: Vec<HIDFunction>,
    pub serialnumber: String,
    pub product: String,
    pub manufacturer: String,
}

impl Default for Gadget {
    fn default() -> (r: Gadget)
        ensures
            r.max_speed is FullSpeed,
            r.device_class == 0,
            r.device_sub_class == 0,
            r.device_protocol == 0,
            r.device_max_packet_size == 0,
            r.device_version == 0,
            r.usb_version == 0,
            r.product_id == 0,
            r.vendor_id == 0,
            r.configs@ == Seq::<Config>::empty(),
            r.hid_functions@ == Seq::<HIDFunction>::empty(),
            r.serialnumber@ == Seq::<char>::empty(),
            r.product@ == Seq::<char>::empty(),
            r.manufacturer@ == Seq::<char>::empty(),
    {
        proof {
            reveal_strlit("");
        }
        let r = Gadget {
            max_speed: Speed::FullSpeed,
            device_class: 0,
            device_sub_class: 0,
            device_protocol: 0,
            device_max_packet_size: 0,
            device_version: 0,
            usb_version: 0,
            product_id: 0,
            vendor_id: 0,
            configs: Vec::new(),
            hid_functions: Vec::new(),
            serialnumber: String::from_str(""),
            product: String::from_str(""),
            manufacturer: String::from_str(""),
        };
        proof {
            assert(r.configs@ =~= Seq::<Config>::empty());
            assert(r.hid_functions@ =~= Seq::<HIDFunction>::empty());
            assert(r.serialnumber@ =~= Seq::<char>::empty());
            assert(r.product@ =~= Seq::<char>::empty());
            assert(r.manufacturer@ =~= Seq::<char>::empty());
        }
        r
    }
}

/// One planned file write: the full path and the exact bytes to put there.
pub struct FileWrite {
    pub path: String,
    pub contents: Vec<u8>,
}

/// `name` appended to `path` with a single separator.
pub open spec fn spec_join(path: Seq<char>, name: Seq<char>) -> Seq<char> {
    path + seq!['/'] + name
}

/// The ASCII hexadecimal digit for a nibble, lower case.
pub open spec fn spec_hex_digit(n: u8) -> u8 {
    if n < 10 {
        (0x30 + n) as u8
    } else {
        (0x57 + n) as u8
    }
}

/// A byte in the form `0x` followed by exactly two hexadecimal digits.
pub open spec fn spec_hex_byte(b: u8) -> Seq<u8> {
    seq![0x30u8, 0x78u8, spec_hex_digit(b >> 4), spec_hex_digit(b & 0x0f)]
}

/// The hexadecimal digits of `v`, most significant first, no leading
/// zeros (a lone zero for zero).
pub open spec fn spec_hex_seq(v: nat) -> Seq<u8>
    decreases v,
{
    if v < 16 {
        seq![spec_hex_digit(v as u8)]
    } else {
        spec_hex_seq(v / 16) + seq![spec_hex_digit((v % 16) as u8)]
    }
}

/// A 32-bit number in the form `0x` followed by at least four
/// hexadecimal digits, zero padded; larger values keep all their digits.
pub open spec fn spec_hex_int(v: u32) -> Seq<u8> {
    if v <= 0xffff {
        seq![
            0x30u8,
            0x78u8,
            spec_hex_digit(((v >> 12) & 0x0f) as u8),
            spec_hex_digit(((v >> 8) & 0x0f) as u8),
            spec_hex_digit(((v >> 4) & 0x0f) as u8),
            spec_hex_digit((v & 0x0f) as u8),
        ]
    } else {
        seq![0x30u8, 0x78u8] + spec_hex_seq(v as nat)
    }
}

/// The ASCII digit for one nibble.
fn hex_digit(n: u8) -> (r: u8)
    requires
        n < 16,
    ensures
        r == spec_hex_digit(n),
{
    if n < 10 {
        0x30 + n
    } else {
        0x57 + n
    }
}

/// The hexadecimal digits of `v`, most significant first.
fn hex_digits_of(v: u32) -> (r: Vec<u8>)
    ensures
        r@ == spec_hex_seq(v as nat),
    decreases v,
{
    if v < 16 {
        let r: Vec<u8> = vec![hex_digit(v as u8)];
        assert(r@ =~= spec_hex_seq(v as nat));
        r
    } else {
        let mut r = hex_digits_of(v / 16);
        r.push(hex_digit((v % 16) as u8));
        assert(r@ =~= spec_hex_seq(v as nat));
        r
    }
}

/// The UTF-8 bytes of a character sequence (file contents written from
/// a string value).
pub open spec fn spec_str_bytes(s: Seq<char>) -> Seq<u8> {
    vstd::utf8::encode_utf8(s)
}

/// The ASCII character for one decimal digit.
pub open spec fn spec_dec_digit(d: nat) -> char {
    if d == 0 {
        '0'
    } else if d == 1 {
        '1'
    } else if d == 2 {
        '2'
    } else if d == 3 {
        '3'
    } else if d == 4 {
        '4'
    } else if d == 5 {
        '5'
    } else if d == 6 {
        '6'
    } else if d == 7 {
        '7'
    } else if d == 8 {
        '8'
    } else {
        '9'
    }
}

/// The decimal digits of `v`, most significant first, no leading zeros
/// (a lone zero for zero).
pub open spec fn spec_dec_chars(v: nat) -> Seq<char>
    decreases v,
{
    if v < 10 {
        seq![spec_dec_digit(v)]
    } else {
        spec_dec_chars(v / 10) + seq![spec_dec_digit(v % 10)]
    }
}

/// One decimal digit as a string slice.
fn digit_str(d: u64) -> (r: &'static str)
    requires
        d < 10,
    ensures
        r@ == seq![spec_dec_digit(d as nat)],
{
    proof {
        reveal_strlit("0");
        reveal_strlit("1");
        reveal_strlit("2");
        reveal_strlit("3");
        reveal_strlit("4");
        reveal_strlit("5");
        reveal_strlit("6");
        reveal_strlit("7");
        reveal_strlit("8");
        reveal_strlit("9");
    }
    let r: &'static str = if d == 0 {
        "0"
    } else if d == 1 {
        "1"
    } else if d == 2 {
        "2"
    } else if d == 3 {
        "3"
    } else if d == 4 {
        "4"
    } else if d == 5 {
        "5"
    } else if d == 6 {
        "6"
    } else if d == 7 {
        "7"
    } else if d == 8 {
        "8"
    } else {
        "9"
    };
    proof {
        assert(r@ =~= seq![spec_dec_digit(d as nat)]);
    }
    r
}

/// Renders `v` in decimal.
fn dec_string(v: u64) -> (r: String)
    ensures
        r@ == spec_dec_chars(v as nat),
    decreases v,
{
    if v < 10 {
        let r = digit_str(v).to_owned();
        assert(r@ =~= spec_dec_chars(v as nat));
        r
    } else {
        let mut r = dec_string(v / 10);
        r.append(digit_str(v % 10));
        assert(r@ =~= spec_dec_chars(v as nat));
        r
    }
}

/// One step of writing the descriptor tree into the configuration
/// filesystem: remove a directory tree, write one file, or link one
/// function into a configuration.
pub enum FsAction {
    RemoveTree { path: String },
    WriteFileAt { path: String, contents: Vec<u8> },
    Symlink { target: String, link: String },
}

/// The action removes the tree at `p`.
#[verifier::opaque]
pub open spec fn is_remove(a: FsAction, p: Seq<char>) -> bool {
    a matches FsAction::RemoveTree { path } && path@ == p
}

/// The action writes exactly `c` at `p`.
#[verifier::opaque]
pub open spec fn is_write(a: FsAction, p: Seq<char>, c: Seq<u8>) -> bool {
    a matches FsAction::WriteFileAt { path, contents } && path@ == p && contents@ == c
}

/// The action links `t` at `l`.
#[verifier::opaque]
pub open spec fn is_link(a: FsAction, t: Seq<char>, l: Seq<char>) -> bool {
    a matches FsAction::Symlink { target, link } && target@ == t && link@ == l
}

/// The gadget tree of `name` under the kernel's configuration
/// filesystem.
pub open spec fn spec_base_path(name: Seq<char>) -> Seq<char> {
    "/sys/kernel/config/usb_gadget/"@ + name
}

/// The English strings directory below `p`.
pub open spec fn spec_strings_path(p: Seq<char>) -> Seq<char> {
    p + "/strings/0x409"@
}

/// The directory of HID function number `i`.
pub open spec fn spec_hid_path(base: Seq<char>, i: nat) -> Seq<char> {
    base + "/functions/hid.usb."@ + spec_dec_chars(i)
}

/// The directory of configuration number `j` (numbered from one).
pub open spec fn spec_cfg_path(base: Seq<char>, j: nat) -> Seq<char> {
    base + "/configs/c."@ + spec_dec_chars(j)
}

/// The name a function link carries inside a configuration directory.
pub open spec fn spec_link_path(cfg: Seq<char>, h: nat) -> Seq<char> {
    cfg + "/hid.usb."@ + spec_dec_chars(h)
}

/// The four file writes describing HID function `i`, sitting at `off`.
#[verifier::opaque]
pub open spec fn spec_hid_block(
    r: Seq<FsAction>,
    off: int,
    base: Seq<char>,
    i: nat,
    f: HIDFunction,
) -> bool {
    let p = spec_hid_path(base, i);
    &&& is_write(r[off], spec_join(p, "protocol"@), spec_hex_int(f.protocol))
    &&& is_write(r[off + 1], spec_join(p, "report_desc"@), f.report_desc@)
    &&& is_write(r[off + 2], spec_join(p, "report_length"@), spec_hex_int(f.report_length))
    &&& is_write(r[off + 3], spec_join(p, "subclass"@), spec_hex_int(f.subclass))
}

/// The writes and links describing configuration `j` (directory numbered
/// `j + 1`), sitting at `off`.
#[verifier::opaque]
pub open spec fn spec_cfg_block(
    r: Seq<FsAction>,
    off: int,
    base: Seq<char>,
    j: nat,
    c: Config,
) -> bool {
    let cp = spec_cfg_path(base, j + 1);
    &&& is_write(r[off], spec_join(cp, "bmAttributes"@), spec_hex_byte(c.attributes))
    &&& is_write(r[off + 1], spec_join(cp, "MaxPower"@), spec_hex_int(c.max_power))
    &&& is_write(
        r[off + 2],
        spec_join(spec_strings_path(cp), "configuration"@),
        spec_str_bytes(c.description@),
    )
    &&& forall|l: int|
        0 <= l < c.hid_functions@.len() ==> is_link(
            r[off + 3 + l],
            spec_hid_path(base, c.hid_functions@[l] as nat),
            spec_link_path(cp, c.hid_functions@[l] as nat),
        )
}

/// How many actions the first `j` configuration blocks take: three
/// writes plus one link per function each.
pub open spec fn spec_cfg_extra(configs: Seq<Config>, j: int) -> int
    decreases j,
{
    if j <= 0 {
        0
    } else {
        spec_cfg_extra(configs, j - 1) + 3 + configs[j - 1].hid_functions@.len()
    }
}

/// How many actions the whole plan for `g` takes.
pub open spec fn spec_plan_len(g: Gadget) -> int {
    13 + 4 * g.hid_functions@.len() + spec_cfg_extra(g.configs@, g.configs@.len() as int)
}

/// The removal and the thirteen device-level writes at the front of the
/// plan.
pub open spec fn spec_plan_head(r: Seq<FsAction>, g: Gadget, name: Seq<char>) -> bool {
    let base = spec_base_path(name);
    &&& is_remove(r[0], base)
    &&& is_write(r[1], spec_join(base, "max_speed"@), spec_str_bytes(g.max_speed.spec_name()))
    &&& is_write(r[2], spec_join(base, "bDeviceClass"@), spec_hex_byte(g.device_class))
    &&& is_write(r[3], spec_join(base, "bDeviceSubClass"@), spec_hex_byte(g.device_sub_class))
    &&& is_write(r[4], spec_join(base, "bDeviceProtocol"@), spec_hex_byte(g.device_protocol))
    &&& is_write(r[5], spec_join(base, "bMaxPacketSize0"@), spec_hex_byte(g.device_max_packet_size))
    &&& is_write(r[6], spec_join(base, "bcdDevice"@), spec_hex_int(g.device_version))
    &&& is_write(r[7], spec_join(base, "bcdUSB"@), spec_hex_int(g.usb_version))
    &&& is_write(r[8], spec_join(base, "idProduct"@), spec_hex_int(g.product_id))
    &&& is_write(r[9], spec_join(base, "idVendor"@), spec_hex_int(g.vendor_id))
    &&& is_write(
        r[10],
        spec_join(spec_strings_path(base), "serialnumber"@),
        spec_str_bytes(g.serialnumber@),
    )
    &&& is_write(
        r[11],
        spec_join(spec_strings_path(base), "product"@),
        spec_str_bytes(g.product@),
    )
    &&& is_write(
        r[12],
        spec_join(spec_strings_path(base), "manufacturer"@),
        spec_str_bytes(g.manufacturer@),
    )
}

/// The first `upto` HID function blocks of the plan.
pub open spec fn spec_plan_hids(r: Seq<FsAction>, g: Gadget, name: Seq<char>, upto: int) -> bool {
    forall|i: int|
        0 <= i < upto ==> spec_hid_block(
            r,
            13 + 4 * i,
            spec_base_path(name),
            i as nat,
            g.hid_functions@[i],
        )
}

/// The first `upto` configuration blocks of the plan.
pub open spec fn spec_plan_cfgs(r: Seq<FsAction>, g: Gadget, name: Seq<char>, upto: int) -> bool {
    forall|j: int|
        0 <= j < upto ==> spec_cfg_block(
            r,
            13 + 4 * g.hid_functions@.len() + spec_cfg_extra(g.configs@, j),
            spec_base_path(name),
            j as nat,
            g.configs@[j],
        )
}

/// Appends one planned write as an action.
fn push_write(r: &mut Vec<FsAction>, w: FileWrite)
    ensures
        final(r)@.len() == old(r)@.len() + 1,
        forall|k: int| 0 <= k < old(r)@.len() ==> final(r)@[k] == old(r)@[k],
        is_write(final(r)@[old(r)@.len() as int], w.path@, w.contents@),
{
    proof {
        reveal(is_write);
    }
    r.push(FsAction::WriteFileAt { path: w.path, contents: w.contents });
}

/// The gadget tree of `name`, as a `String`.
fn base_path(name: &str) -> (r: String)
    ensures
        r@ == spec_base_path(name@),
{
    let mut p = String::from_str("/sys/kernel/config/usb_gadget/");
    p.append(name);
    p
}

/// The English strings directory below `p`, as a `String`.
fn strings_path_of(p: &str) -> (r: String)
    ensures
        r@ == spec_strings_path(p@),
{
    let mut s = p.to_owned();
    s.append("/strings/0x409");
    s
}

/// The directory of HID function `i`, as a `String`.
fn hid_path_of(base: &str, i: u64) -> (r: String)
    ensures
        r@ == spec_hid_path(base@, i as nat),
{
    let mut p = base.to_owned();
    p.append("/functions/hid.usb.");
    let d = dec_string(i);
    p.append(d.as_str());
    p
}

/// The directory of configuration number `j`, as a `String`.
fn cfg_path_of(base: &str, j: u64) -> (r: String)
    ensures
        r@ == spec_cfg_path(base@, j as nat),
{
    let mut p = base.to_owned();
    p.append("/configs/c.");
    let d = dec_string(j);
    p.append(d.as_str());
    p
}

/// The link of function `h` inside the configuration directory `cfg`,
/// as a `String`.
fn link_path_of(cfg: &str, h: u64) -> (r: String)
    ensures
        r@ == spec_link_path(cfg@, h as nat),
{
    let mut p = cfg.to_owned();
    p.append("/hid.usb.");
    let d = dec_string(h);
    p.append(d.as_str());
    p
}

/// The configuration block counter never shrinks: block `m` ends at or
/// before where the first `j` blocks end, and every count is
/// non-negative.
proof fn lemma_cfg_extra_bounds(configs: Seq<Config>, m: int, j: int)
    requires
        0 <= m < j <= configs.len(),
    ensures
        spec_cfg_extra(configs, m) >= 0,
        spec_cfg_extra(configs, m) + 3 + configs[m].hid_functions@.len() <= spec_cfg_extra(
            configs,
            j,
        ),
    decreases j,
{
    lemma_cfg_extra_nonneg(configs, m);
    if m < j - 1 {
        lemma_cfg_extra_bounds(configs, m, j - 1);
    }
}

/// Every prefix of configuration blocks takes a non-negative number of
/// actions.
proof fn lemma_cfg_extra_nonneg(configs: Seq<Config>, j: int)
    ensures
        spec_cfg_extra(configs, j) >= 0,
    decreases j,
{
    if j > 0 {
        lemma_cfg_extra_nonneg(configs, j - 1);
    }
}

/// A head section keeps holding when the plan only grows behind it.
proof fn lemma_head_preserved(r1: Seq<FsAction>, r2: Seq<FsAction>, g: Gadget, name: Seq<char>)
    requires
        spec_plan_head(r1, g, name),
        r1.len() >= 13,
        forall|k: int| 0 <= k < r1.len() ==> r2[k] == r1[k],
    ensures
        spec_plan_head(r2, g, name),
{
}

/// A HID function block keeps holding when the plan only grows behind it.
proof fn lemma_hid_block_preserved(
    r1: Seq<FsAction>,
    r2: Seq<FsAction>,
    off: int,
    base: Seq<char>,
    i: nat,
    f: HIDFunction,
)
    requires
        spec_hid_block(r1, off, base, i, f),
        0 <= off,
        off + 4 <= r1.len(),
        forall|k: int| 0 <= k < r1.len() ==> r2[k] == r1[k],
    ensures
        spec_hid_block(r2, off, base, i, f),
{
    reveal(spec_hid_block);
}

/// A configuration block keeps holding when the plan only grows behind it.
proof fn lemma_cfg_block_preserved(
    r1: Seq<FsAction>,
    r2: Seq<FsAction>,
    off: int,
    base: Seq<char>,
    j: nat,
    c: Config,
)
    requires
        spec_cfg_block(r1, off, base, j, c),
        0 <= off,
        off + 3 + c.hid_functions@.len() <= r1.len(),
        forall|k: int| 0 <= k < r1.len() ==> r2[k] == r1[k],
    ensures
        spec_cfg_block(r2, off, base, j, c),
{
    reveal(spec_cfg_block);
    assert forall|l: int| 0 <= l < c.hid_functions@.len() implies is_link(
        r2[off + 3 + l],
        spec_hid_path(base, c.hid_functions@[l] as nat),
        spec_link_path(spec_cfg_path(base, (j + 1) as nat), c.hid_functions@[l] as nat),
    ) by {
        assert(r2[off + 3 + l] == r1[off + 3 + l]);
    }
}

/// Appends the four-file block of HID function `i` to the plan.
fn push_hid_block(r: &mut Vec<FsAction>, base: &str, i: u64, function: &HIDFunction)
    ensures
        final(r)@.len() == old(r)@.len() + 4,
        forall|k: int| 0 <= k < old(r)@.len() ==> final(r)@[k] == old(r)@[k],
        spec_hid_block(final(r)@, old(r)@.len() as int, base@, i as nat, *function),
{
    proof {
        reveal(spec_hid_block);
    }
    let hid_path = hid_path_of(base, i);
    push_write(r, write_file_int(hid_path.as_str(), "protocol", function.protocol));
    push_write(r, write_file(hid_path.as_str(), "report_desc", &function.report_desc));
    push_write(r, write_file_int(hid_path.as_str(), "report_length", function.report_length));
    push_write(r, write_file_int(hid_path.as_str(), "subclass", function.subclass));
}

/// Appends the block of configuration directory number `jnum` to the
/// plan: its attributes, power budget, description string, and one link
/// per function it uses.
fn push_cfg_block(r: &mut Vec<FsAction>, base: &str, jnum: u64, config: &Config)
    requires
        jnum >= 1,
    ensures
        final(r)@.len() == old(r)@.len() + 3 + config.hid_functions@.len(),
        forall|k: int| 0 <= k < old(r)@.len() ==> final(r)@[k] == old(r)@[k],
        spec_cfg_block(final(r)@, old(r)@.len() as int, base@, (jnum - 1) as nat, *config),
{
    proof {
        reveal(spec_cfg_block);
    }
    let ghost off: int = old(r)@.len() as int;
    let cfg_path = cfg_path_of(base, jnum);
    let cfg_strings = strings_path_of(cfg_path.as_str());
    push_write(r, write_file_byte(cfg_path.as_str(), "bmAttributes", config.attributes));
    push_write(r, write_file_int(cfg_path.as_str(), "MaxPower", config.max_power));
    push_write(
        r,
        write_file_str(cfg_strings.as_str(), "configuration", config.description.as_str()),
    );

    let mut l: usize = 0;
    while l < config.hid_functions.len()
        invariant
            l <= config.hid_functions@.len(),
            off == old(r)@.len() as int,
            r@.len() == off + 3 + l,
            cfg_path@ == spec_cfg_path(base@, jnum as nat),
            forall|k: int| 0 <= k < off ==> r@[k] == old(r)@[k],
            is_write(r@[off], spec_join(cfg_path@, "bmAttributes"@), spec_hex_byte(
                config.attributes,
            )),
            is_write(r@[off + 1], spec_join(cfg_path@, "MaxPower"@), spec_hex_int(
                config.max_power,
            )),
            is_write(
                r@[off + 2],
                spec_join(spec_strings_path(cfg_path@), "configuration"@),
                spec_str_bytes(config.description@),
            ),
            forall|m: int|
                0 <= m < l ==> is_link(
                    r@[off + 3 + m],
                    spec_hid_path(base@, config.hid_functions@[m] as nat),
                    spec_link_path(cfg_path@, config.hid_functions@[m] as nat),
                ),
        decreases config.hid_functions@.len() - l,
    {
        let hid = config.hid_functions[l];
        let target = hid_path_of(base, hid as u64);
        let link = link_path_of(cfg_path.as_str(), hid as u64);
        r.push(FsAction::Symlink { target, link });
        l = l + 1;
        proof {
            reveal(is_link);
        }
    }
}

/// Appends every HID function block to the plan.
fn push_hid_blocks(r: &mut Vec<FsAction>, base: &str, functions: &Vec<HIDFunction>)
    ensures
        final(r)@.len() == old(r)@.len() + 4 * functions@.len(),
        forall|k: int| 0 <= k < old(r)@.len() ==> final(r)@[k] == old(r)@[k],
        forall|i: int|
            0 <= i < functions@.len() ==> spec_hid_block(
                final(r)@,
                old(r)@.len() + 4 * i,
                base@,
                i as nat,
                functions@[i],
            ),
{
    let ghost start: int = old(r)@.len() as int;
    let mut i: usize = 0;
    while i < functions.len()
        invariant
            i <= functions@.len(),
            start == old(r)@.len() as int,
            r@.len() == start + 4 * i,
            forall|k: int| 0 <= k < start ==> r@[k] == old(r)@[k],
            forall|m: int|
                0 <= m < i ==> spec_hid_block(r@, start + 4 * m, base@, m as nat, functions@[m]),
        decreases functions@.len() - i,
    {
        let ghost prev = r@;
        push_hid_block(r, base, i as u64, &functions[i]);
        i = i + 1;
        proof {
            assert forall|k: int| 0 <= k < start implies r@[k] == old(r)@[k] by {
                assert(r@[k] == prev[k]);
            }
            assert forall|m: int|
                0 <= m < i implies spec_hid_block(r@, start + 4 * m, base@, m as nat,
                functions@[m]) by {
                if m < i - 1 {
                    lemma_hid_block_preserved(prev, r@, start + 4 * m, base@, m as nat,
                        functions@[m]);
                }
            }
        }
    }
}

/// Appends every configuration block to the plan.
fn push_cfg_blocks(r: &mut Vec<FsAction>, base: &str, configs: &Vec<Config>)
    ensures
        final(r)@.len() == old(r)@.len() + spec_cfg_extra(configs@, configs@.len() as int),
        forall|k: int| 0 <= k < old(r)@.len() ==> final(r)@[k] == old(r)@[k],
        forall|j: int|
            0 <= j < configs@.len() ==> spec_cfg_block(
                final(r)@,
                old(r)@.len() + spec_cfg_extra(configs@, j),
                base@,
                j as nat,
                configs@[j],
            ),
{
    let ghost start: int = old(r)@.len() as int;
    let mut j: usize = 0;
    while j < configs.len()
        invariant
            j <= configs@.len(),
            start == old(r)@.len() as int,
            r@.len() == start + spec_cfg_extra(configs@, j as int),
            forall|k: int| 0 <= k < start ==> r@[k] == old(r)@[k],
            forall|m: int|
                0 <= m < j ==> spec_cfg_block(r@, start + spec_cfg_extra(configs@, m), base@,
                    m as nat, configs@[m]),
        decreases configs@.len() - j,
    {
        let ghost prev = r@;
        push_cfg_block(r, base, (j + 1) as u64, &configs[j]);
        j = j + 1;
        proof {
            assert(spec_cfg_extra(configs@, j as int) == spec_cfg_extra(configs@, j as int - 1) + 3
                + configs@[j as int - 1].hid_functions@.len());
            lemma_cfg_extra_nonneg(configs@, j as int - 1);
            assert forall|k: int| 0 <= k < start implies r@[k] == old(r)@[k] by {
                assert(r@[k] == prev[k]);
            }
            assert forall|m: int|
                0 <= m < j implies spec_cfg_block(r@, start + spec_cfg_extra(configs@, m), base@,
                m as nat, configs@[m]) by {
                if m < j - 1 {
                    lemma_cfg_extra_bounds(configs@, m, j as int - 1);
                    lemma_cfg_block_preserved(prev, r@, start + spec_cfg_extra(configs@, m), base@,
                        m as nat, configs@[m]);
                }
            }
        }
    }
}

impl Gadget {
    /// Plans the whole descriptor tree write for this gadget under
    /// `name`: first the removal of any previous tree, then the
    /// device-level files, the English device strings, one block of four
    /// files per HID function, and one block per configuration — its
    /// attributes, power budget, description string, and a link for each
    /// function it uses.  The caller performs the actions in order.
    #[verifier::rlimit(100)]
    pub fn create_config(&self, name: &str) -> (r: Vec<FsAction>)
        ensures
            r@.len() == spec_plan_len(*self),
            spec_plan_head(r@, *self, name@),
            spec_plan_hids(r@, *self, name@, self.hid_functions@.len() as int),
            spec_plan_cfgs(r@, *self, name@, self.configs@.len() as int),
    {
        let base = base_path(name);
        let strings = strings_path_of(base.as_str());
        let mut r: Vec<FsAction> = Vec::new();

        proof {
            reveal(is_remove);
        }
        r.push(FsAction::RemoveTree { path: base_path(name) });
        let speed = self.max_speed.to_string();
        push_write(&mut r, write_file_str(base.as_str(), "max_speed", speed.as_str()));
        push_write(&mut r, write_file_byte(base.as_str(), "bDeviceClass", self.device_class));
        push_write(&mut r, write_file_byte(base.as_str(), "bDeviceSubClass", self.device_sub_class));
        push_write(&mut r, write_file_byte(base.as_str(), "bDeviceProtocol", self.device_protocol));
        push_write(
            &mut r,
            write_file_byte(base.as_str(), "bMaxPacketSize0", self.device_max_packet_size),
        );
        push_write(&mut r, write_file_int(base.as_str(), "bcdDevice", self.device_version));
        push_write(&mut r, write_file_int(base.as_str(), "bcdUSB", self.usb_version));
        push_write(&mut r, write_file_int(base.as_str(), "idProduct", self.product_id));
        push_write(&mut r, write_file_int(base.as_str(), "idVendor", self.vendor_id));
        push_write(
            &mut r,
            write_file_str(strings.as_str(), "serialnumber", self.serialnumber.as_str()),
        );
        push_write(&mut r, write_file_str(strings.as_str(), "product", self.product.as_str()));
        push_write(
            &mut r,
            write_file_str(strings.as_str(), "manufacturer", self.manufacturer.as_str()),
        );
        let ghost after_head = r@;
        assert(spec_plan_head(r@, *self, name@));

        push_hid_blocks(&mut r, base.as_str(), &self.hid_functions);
        let ghost after_hids = r@;
        proof {
            lemma_head_preserved(after_head, r@, *self, name@);
        }

        push_cfg_blocks(&mut r, base.as_str(), &self.configs);
        proof {
            lemma_head_preserved(after_hids, r@, *self, name@);
            assert forall|i: int|
                0 <= i < self.hid_functions@.len() implies spec_hid_block(
                r@,
                13 + 4 * i,
                spec_base_path(name@),
                i as nat,
                self.hid_functions@[i],
            ) by {
                lemma_hid_block_preserved(after_hids, r@, 13 + 4 * i, spec_base_path(name@),
                    i as nat, self.hid_functions@[i]);
            }
        }

        r
    }
}

/// Plans writing raw bytes into `name` under `path`.
pub fn write_file(path: &str, name: &str, contents: &Vec<u8>) -> (r: FileWrite)
    ensures
        r.path@ == spec_join(path@, name@),
        r.contents@ == contents@,
{
    let mut p = path.to_owned();
    p.append("/");
    p.append(name);
    proof {
        reveal_strlit("/");
        assert(p@ =~= spec_join(path@, name@));
    }
    let mut bytes: Vec<u8> = Vec::new();
    crate::report::append_bytes(&mut bytes, contents);
    assert(bytes@ =~= contents@);
    FileWrite { path: p, contents: bytes }
}

/// Plans writing a string value into `name` under `path`.
pub fn write_file_str(path: &str, name: &str, contents: &str) -> (r: FileWrite)
    ensures
        r.path@ == spec_join(path@, name@),
        r.contents@ == spec_str_bytes(contents@),
{
    let mut p = path.to_owned();
    p.append("/");
    p.append(name);
    proof {
        reveal_strlit("/");
        assert(p@ =~= spec_join(path@, name@));
    }
    FileWrite { path: p, contents: contents.as_bytes_vec() }
}

/// Plans writing a byte value into `name` under `path`, rendered as
/// `0x` and two hexadecimal digits.
pub fn write_file_byte(path: &str, name: &str, contents: u8) -> (r: FileWrite)
    ensures
        r.path@ == spec_join(path@, name@),
        r.contents@ == spec_hex_byte(contents),
{
    let mut p = path.to_owned();
    p.append("/");
    p.append(name);
    proof {
        reveal_strlit("/");
        assert(p@ =~= spec_join(path@, name@));
    }
    assert(contents >> 4 < 16 && contents & 0x0f < 16) by (bit_vector);
    let bytes: Vec<u8> = vec![
        0x30,
        0x78,
        hex_digit(contents >> 4),
        hex_digit(contents & 0x0f),
    ];
    assert(bytes@ =~= spec_hex_byte(contents));
    FileWrite { path: p, contents: bytes }
}

/// Plans writing a 32-bit value into `name` under `path`, rendered as
/// `0x` and at least four hexadecimal digits.
pub fn write_file_int(path: &str, name: &str, contents: u32) -> (r: FileWrite)
    ensures
        r.path@ == spec_join(path@, name@),
        r.contents@ == spec_hex_int(contents),
{
    let mut p = path.to_owned();
    p.append("/");
    p.append(name);
    proof {
        reveal_strlit("/");
        assert(p@ =~= spec_join(path@, name@));
    }
    let mut bytes: Vec<u8> = vec![0x30, 0x78];
    if contents <= 0xffff {
        assert((contents >> 12) & 0x0f < 16 && (contents >> 8) & 0x0f < 16 && (contents >> 4)
            & 0x0f < 16 && contents & 0x0f < 16) by (bit_vector);
        bytes.push(hex_digit(((contents >> 12) & 0x0f) as u8));
        bytes.push(hex_digit(((contents >> 8) & 0x0f) as u8));
        bytes.push(hex_digit(((contents >> 4) & 0x0f) as u8));
        bytes.push(hex_digit((contents & 0x0f) as u8));
        assert(bytes@ =~= spec_hex_int(contents));
    } else {
        let digits = hex_digits_of(contents);
        crate::report::append_bytes(&mut bytes, &digits);
        assert(bytes@ =~= spec_hex_int(contents));
    }
    FileWrite { path: p, contents: bytes }
}

} // verus!
