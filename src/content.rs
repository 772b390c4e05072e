use vstd::prelude::*;
use vstd::string::*;

use crate::text::{decimal_text, digits};

verus! {

/// The lines of the network widget, in order: interface, hostname, local and
/// public address.
pub open spec fn network_texts(
    interface: Seq<char>,
    hostname: Seq<char>,
    local_ip: Seq<char>,
    global_ip: Seq<char>,
) -> Seq<Seq<char>> {
    seq![
        "Interface: "@ + interface,
        "Hostname: "@ + hostname,
        "Local IP: "@ + local_ip,
        "Global IP: "@ + global_ip,
    ]
}

/// The lines of the network widget. An empty `global_ip` stands for a public
/// address that could not be looked up.
pub fn network_lines(interface: &str, hostname: &str, local_ip: &str, global_ip: &str) -> (r: Vec<
    String,
>)
    ensures
        r@.len() == 4,
        forall|i: int|
            0 <= i < 4 ==> #[trigger] r@[i]@ == network_texts(
                interface@,
                hostname@,
                local_ip@,
                global_ip@,
            )[i],
{
    let mut r: Vec<String> = Vec::new();
    r.push(String::from_str("Interface: ").concat(interface));
    r.push(String::from_str("Hostname: ").concat(hostname));
    r.push(String::from_str("Local IP: ").concat(local_ip));
    r.push(String::from_str("Global IP: ").concat(global_ip));
    r
}

/// Bytes in one gibibyte.
pub open spec fn gib() -> int {
    1073741824
}

/// A byte count in tenths of a gibibyte, rounded to nearest; an exact half
/// goes to the even count.
pub open spec fn gib_tenths(bytes: int) -> int {
    let q = bytes * 10 / gib();
    let rem = bytes * 10 % gib();
    if rem > gib() / 2 || (rem == gib() / 2 && q % 2 == 1) {
        q + 1
    } else {
        q
    }
}

/// A count of tenths written with one decimal: `12.3` for 123.
pub open spec fn one_decimal(tenths: int) -> Seq<char> {
    digits((tenths / 10) as nat) + "."@ + digits((tenths % 10) as nat)
}

/// Byte count in gibibytes with one decimal.
fn gib_text(bytes: u64) -> (r: String)
    ensures
        r@ == one_decimal(gib_tenths(bytes as int)),
{
    let n = (bytes as u128) * 10;
    let q = n / 1073741824;
    let rem = n % 1073741824;
    assert(q <= 0x40_0000_0000) by (nonlinear_arith)
        requires n <= 0xffff_ffff_ffff_ffff * 10, q == n / 1073741824;
    let t = if rem > 536870912 || (rem == 536870912 && q % 2 == 1) {
        q + 1
    } else {
        q
    };
    let whole = decimal_text((t / 10) as i64);
    let frac = decimal_text((t % 10) as i64);
    whole.concat(".").concat(frac.as_str())
}

/// The line of the disk widget: the partition, its free and its total space.
pub open spec fn disk_text(partition: Seq<char>, free_bytes: int, total_bytes: int) -> Seq<char> {
    "In "@ + partition + " "@ + one_decimal(gib_tenths(free_bytes)) + "Gb free from "@
        + one_decimal(gib_tenths(total_bytes)) + "Gb"@
}

/// The line of the disk widget, with sizes in gibibytes to one decimal.
pub fn disk_line(partition: &str, free_bytes: u64, total_bytes: u64) -> (r: String)
    ensures
        r@ == disk_text(partition@, free_bytes as int, total_bytes as int),
{
    let free = gib_text(free_bytes);
    let total = gib_text(total_bytes);
    String::from_str("In ").concat(partition).concat(" ").concat(free.as_str()).concat(
        "Gb free from ",
    ).concat(total.as_str()).concat("Gb")
}

} // verus!
