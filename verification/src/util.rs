//! What the agent says about the machine it runs on: its addresses, its host
//! name, the name of its operating system, and the name of the instance.
//!
//! Reading the machine is left to the caller. The rules are here: which
//! addresses count, and what stands in for a value that could not be read.

use vstd::prelude::*;
use vstd::string::*;

verus! {

/// One address of a network interface.
pub struct NetworkAddress {
    /// The address as text.
    pub text: String,
    /// Whether it is an IPv4 address.
    pub is_v4: bool,
}

/// A network interface with its addresses.
pub struct Network {
    /// The interface's name.
    pub name: String,
    /// Its addresses, in the order the system gave them.
    pub addrs: Vec<NetworkAddress>,
}

/// The texts that a sequence of strings holds.
pub open spec fn texts(strings: Seq<String>) -> Seq<Seq<char>> {
    Seq::new(strings.len(), |i: int| strings[i]@)
}

/// Whether an interface of this name is left out: the loopback interface,
/// and the bridges that container runtimes set up.
pub open spec fn is_internal(name: Seq<char>) -> bool {
    ||| name == "lo"@
    ||| "docker"@.is_prefix_of(name)
    ||| "br-"@.is_prefix_of(name)
}

/// The IPv4 addresses among `addrs`, in their order.
pub open spec fn v4_addresses(addrs: Seq<NetworkAddress>) -> Seq<Seq<char>>
    decreases addrs.len(),
{
    if addrs.len() == 0 {
        Seq::empty()
    } else {
        let earlier = v4_addresses(addrs.drop_last());
        if addrs.last().is_v4 {
            earlier.push(addrs.last().text@)
        } else {
            earlier
        }
    }
}

/// The IPv4 addresses of the interfaces that are not left out, interface by
/// interface.
pub open spec fn outward_addresses(networks: Seq<Network>) -> Seq<Seq<char>>
    decreases networks.len(),
{
    if networks.len() == 0 {
        Seq::empty()
    } else {
        let earlier = outward_addresses(networks.drop_last());
        if is_internal(networks.last().name@) {
            earlier
        } else {
            earlier + v4_addresses(networks.last().addrs@)
        }
    }
}

/// The addresses that the instance reports: the outward ones, or the
/// loopback address where there is none.
pub open spec fn reported_addresses(networks: Seq<Network>) -> Seq<Seq<char>> {
    if outward_addresses(networks).len() == 0 {
        seq!["127.0.0.1"@]
    } else {
        outward_addresses(networks)
    }
}

/// Whether `text` begins with `prefix`.
pub fn has_prefix(text: &str, prefix: &str) -> (found: bool)
    ensures
        found == prefix@.is_prefix_of(text@),
{
    let n = prefix.unicode_len();
    if text.unicode_len() < n {
        return false;
    }
    let mut i: usize = 0;
    while i < n
        invariant
            n == prefix@.len(),
            n <= text@.len(),
            i <= n,
            forall|k: int| 0 <= k < i ==> text@[k] == prefix@[k],
        decreases n - i,
    {
        if text.get_char(i) != prefix.get_char(i) {
            assert(text@.subrange(0, n as int)[i as int] != prefix@[i as int]);
            return false;
        }
        i += 1;
    }
    assert(prefix@ =~= text@.subrange(0, n as int));
    true
}

/// Whether two strings hold the same text.
pub fn same_text(left: &str, right: &str) -> (same: bool)
    ensures
        same == (left@ == right@),
{
    if left.unicode_len() != right.unicode_len() {
        return false;
    }
    let same = has_prefix(left, right);
    assert(right@.is_prefix_of(left@) ==> right@ =~= left@);
    same
}

/// Whether an interface of this name is left out of the report.
pub fn is_internal_name(name: &str) -> (internal: bool)
    ensures
        internal == is_internal(name@),
{
    same_text(name, "lo") || has_prefix(name, "docker") || has_prefix(name, "br-")
}

/// The addresses that the instance reports, from the interfaces that the
/// system lists.
pub fn local_ips(networks: &Vec<Network>) -> (ips: Vec<String>)
    ensures
        texts(ips@) == reported_addresses(networks@),
        ips@.len() > 0,
{
    let mut ips: Vec<String> = Vec::new();
    let mut i: usize = 0;
    assert(networks@.take(0) =~= Seq::<Network>::empty());
    assert(texts(ips@) =~= Seq::<Seq<char>>::empty());
    while i < networks.len()
        invariant
            i <= networks@.len(),
            texts(ips@) == outward_addresses(networks@.take(i as int)),
        decreases networks@.len() - i,
    {
        let network = &networks[i];
        let ghost before = texts(ips@);
        assert(networks@.take(i + 1).drop_last() =~= networks@.take(i as int));
        if !is_internal_name(network.name.as_str()) {
            let mut j: usize = 0;
            assert(network.addrs@.take(0) =~= Seq::<NetworkAddress>::empty());
            assert(texts(ips@) =~= before + Seq::<Seq<char>>::empty());
            while j < network.addrs.len()
                invariant
                    j <= network.addrs@.len(),
                    texts(ips@) == before + v4_addresses(network.addrs@.take(j as int)),
                decreases network.addrs@.len() - j,
            {
                let addr = &network.addrs[j];
                assert(network.addrs@.take(j + 1).drop_last() =~= network.addrs@.take(j as int));
                if addr.is_v4 {
                    let ghost held = texts(ips@);
                    ips.push(addr.text.clone());
                    assert(texts(ips@) =~= held.push(addr.text@));
                    assert(held.push(addr.text@) =~= before + v4_addresses(
                        network.addrs@.take(j as int),
                    ).push(addr.text@));
                }
                j += 1;
            }
            assert(network.addrs@.take(j as int) =~= network.addrs@);
        }
        i += 1;
    }
    assert(networks@.take(i as int) =~= networks@);
    if ips.len() == 0 {
        ips.push("127.0.0.1".to_owned());
        assert(texts(ips@) =~= seq!["127.0.0.1"@]);
    }
    ips
}

/// The parts of `parts`, with `separator` between each two.
pub open spec fn joined(parts: Seq<Seq<char>>, separator: Seq<char>) -> Seq<char>
    decreases parts.len(),
{
    if parts.len() == 0 {
        Seq::empty()
    } else if parts.len() == 1 {
        parts[0]
    } else {
        joined(parts.drop_last(), separator) + separator + parts.last()
    }
}

/// Writes the strings of `parts` one after the other, with `separator`
/// between each two.
pub fn join(parts: &Vec<String>, separator: &str) -> (text: String)
    ensures
        text@ == joined(texts(parts@), separator@),
{
    let mut text = String::new();
    let mut i: usize = 0;
    assert(texts(parts@).take(0) =~= Seq::<Seq<char>>::empty());
    while i < parts.len()
        invariant
            i <= parts@.len(),
            text@ == joined(texts(parts@).take(i as int), separator@),
        decreases parts@.len() - i,
    {
        let ghost shorter = texts(parts@).take(i as int);
        let ghost longer = texts(parts@).take(i + 1);
        assert(longer.drop_last() =~= shorter);
        assert(longer.last() == parts@[i as int]@);
        if i > 0 {
            text.append(separator);
        }
        text.append(parts[i].as_str());
        assert(text@ =~= joined(longer, separator@));
        i += 1;
    }
    assert(texts(parts@).take(i as int) =~= texts(parts@));
    text
}

/// The host name that is reported for what the system gave: the name, or
/// "unknown" where it could not be read as text.
pub open spec fn reported_host_name(read: Option<Seq<char>>) -> Seq<char> {
    match read {
        Some(name) => name,
        None => "unknown"@,
    }
}

/// The host name to report, from what the system gave.
pub fn host_name(read: Option<String>) -> (name: String)
    ensures
        name@ == reported_host_name(
            match read {
                Some(text) => Some(text@),
                None => None,
            },
        ),
{
    match read {
        Some(name) => name,
        None => "unknown".to_owned(),
    }
}

/// The name under which an operating system is reported, from the short
/// name that the compiler has for it.
pub open spec fn reported_os_name(target: Seq<char>) -> Seq<char> {
    if target == "linux"@ {
        "Linux"@
    } else if target == "windows"@ {
        "Windows"@
    } else if target == "macos"@ {
        "Macos"@
    } else {
        "Unknown"@
    }
}

/// The operating system's name as it is reported.
pub fn os_name(target: &str) -> (name: String)
    ensures
        name@ == reported_os_name(target@),
{
    if same_text(target, "linux") {
        "Linux".to_owned()
    } else if same_text(target, "windows") {
        "Windows".to_owned()
    } else if same_text(target, "macos") {
        "Macos".to_owned()
    } else {
        "Unknown".to_owned()
    }
}

/// The name of this instance of the service: an identifier that was made for
/// it, an at sign, and the first of its addresses.
pub fn service_instance(identifier: &str, ips: &Vec<String>) -> (name: String)
    requires
        ips@.len() > 0,
    ensures
        name@ == identifier@ + "@"@ + ips@[0]@,
{
    let mut name = identifier.to_owned();
    name.append("@");
    name.append(ips[0].as_str());
    name
}

/// A moment of the local calendar, to the second.
#[derive(Clone, Copy, Debug)]
pub struct Timestamp {
    pub year: i32,
    pub month: u32,
    pub day: u32,
    pub hour: u32,
    pub minute: u32,
    pub second: u32,
}

impl Timestamp {
    /// Whether each field but the year lies where the calendar and the clock
    /// put it.
    pub open spec fn in_range(self) -> bool {
        &&& 1 <= self.month <= 12
        &&& 1 <= self.day <= 31
        &&& self.hour <= 23
        &&& self.minute <= 59
        &&& self.second <= 59
    }
}

/// The character for a digit.
pub open spec fn digit(d: nat) -> char {
    seq!['0', '1', '2', '3', '4', '5', '6', '7', '8', '9'][d as int]
}

/// A number in decimal, without leading zeros.
pub open spec fn decimal(n: nat) -> Seq<char>
    decreases n,
{
    if n < 10 {
        seq![digit(n)]
    } else {
        decimal(n / 10).push(digit(n % 10))
    }
}

/// A number in decimal, with a leading zero where it has one digit.
pub open spec fn two_digits(n: nat) -> Seq<char> {
    if n < 10 {
        seq!['0'] + decimal(n)
    } else {
        decimal(n)
    }
}

/// A number in decimal, with leading zeros where it has fewer than four
/// digits.
pub open spec fn four_digits(n: nat) -> Seq<char> {
    if n < 10 {
        seq!['0', '0', '0'] + decimal(n)
    } else if n < 100 {
        seq!['0', '0'] + decimal(n)
    } else if n < 1000 {
        seq!['0'] + decimal(n)
    } else {
        decimal(n)
    }
}

/// A year as it is written: four digits for the years 0 to 9999, and a sign
/// before the digits for every other year.
pub open spec fn year_text(year: int) -> Seq<char> {
    if 0 <= year <= 9999 {
        four_digits(year as nat)
    } else if year < 0 {
        seq!['-'] + four_digits((-year) as nat)
    } else {
        seq!['+'] + four_digits(year as nat)
    }
}

/// A moment written as `YYYY-MM-DD HH:MM:SS`.
pub open spec fn timestamp_text(moment: Timestamp) -> Seq<char> {
    year_text(moment.year as int) + seq!['-'] + two_digits(moment.month as nat) + seq!['-']
        + two_digits(moment.day as nat) + seq![' '] + two_digits(moment.hour as nat) + seq![':']
        + two_digits(moment.minute as nat) + seq![':'] + two_digits(moment.second as nat)
}

/// The text of one digit.
fn digit_text(d: u64) -> (text: &'static str)
    requires
        d < 10,
    ensures
        text@ == seq![digit(d as nat)],
{
    proof {
        reveal_strlit("0");
        reveal_strlit("1");
        reveal_strlit("2");
        reveal_strlit("3");
        reveal_strlit("4");
        reveal_strlit("5");
        reveal_strlit("6");
        reveal_strlit("7");
        reveal_strlit("8");
        reveal_strlit("9");
    }
    let text = if d == 0 {
        "0"
    } else if d == 1 {
        "1"
    } else if d == 2 {
        "2"
    } else if d == 3 {
        "3"
    } else if d == 4 {
        "4"
    } else if d == 5 {
        "5"
    } else if d == 6 {
        "6"
    } else if d == 7 {
        "7"
    } else if d == 8 {
        "8"
    } else {
        "9"
    };
    assert(text@ =~= seq![digit(d as nat)]);
    text
}

/// Appends `n` in decimal.
fn append_decimal(text: &mut String, n: u64)
    ensures
        final(text)@ == old(text)@ + decimal(n as nat),
    decreases n,
{
    if n >= 10 {
        append_decimal(text, n / 10);
    }
    text.append(digit_text(n % 10));
    assert(final(text)@ =~= old(text)@ + decimal(n as nat));
}

/// Writes `n` in decimal.
pub fn decimal_text(n: u64) -> (text: String)
    ensures
        text@ == decimal(n as nat),
{
    let mut text = String::new();
    append_decimal(&mut text, n);
    assert(text@ =~= decimal(n as nat));
    text
}

/// Appends `n` in decimal, with at least two digits.
fn append_two_digits(text: &mut String, n: u64)
    ensures
        final(text)@ == old(text)@ + two_digits(n as nat),
{
    proof {
        reveal_strlit("0");
    }
    if n < 10 {
        text.append("0");
    }
    append_decimal(text, n);
    assert(final(text)@ =~= old(text)@ + two_digits(n as nat));
}

/// Appends `n` in decimal, with at least four digits.
fn append_four_digits(text: &mut String, n: u64)
    ensures
        final(text)@ == old(text)@ + four_digits(n as nat),
{
    proof {
        reveal_strlit("0");
    }
    if n < 1000 {
        text.append("0");
    }
    if n < 100 {
        text.append("0");
    }
    if n < 10 {
        text.append("0");
    }
    append_decimal(text, n);
    assert(final(text)@ =~= old(text)@ + four_digits(n as nat));
}

/// Writes a moment as `YYYY-MM-DD HH:MM:SS`.
pub fn format_timestamp(moment: &Timestamp) -> (text: String)
    ensures
        text@ == timestamp_text(*moment),
{
    proof {
        reveal_strlit("-");
        reveal_strlit("+");
        reveal_strlit(" ");
        reveal_strlit(":");
    }
    let mut text = String::new();
    let year = moment.year as i64;
    if year < 0 {
        text.append("-");
        append_four_digits(&mut text, (-year) as u64);
    } else if year > 9999 {
        text.append("+");
        append_four_digits(&mut text, year as u64);
    } else {
        append_four_digits(&mut text, year as u64);
    }
    assert(text@ =~= year_text(moment.year as int));
    text.append("-");
    append_two_digits(&mut text, moment.month as u64);
    text.append("-");
    append_two_digits(&mut text, moment.day as u64);
    text.append(" ");
    append_two_digits(&mut text, moment.hour as u64);
    text.append(":");
    append_two_digits(&mut text, moment.minute as u64);
    text.append(":");
    append_two_digits(&mut text, moment.second as u64);
    assert(text@ =~= timestamp_text(*moment));
    text
}

/// The reading of the local clock, from `chrono::Local::now` and the field
/// accessors of `chrono::Datelike` and `chrono::Timelike`. Nothing is said
/// of which moment comes back. What is claimed is what chrono documents of
/// those accessors: the month is from 1 to 12, the day from 1 to 31, the
/// hour from 0 to 23, and the minute and the second from 0 to 59.
#[verifier::external_body]
fn local_now() -> (now: Timestamp)
    ensures
        now.in_range(),
{
    let now = chrono::Local::now();
    Timestamp {
        year: chrono::Datelike::year(&now),
        month: chrono::Datelike::month(&now),
        day: chrono::Datelike::day(&now),
        hour: chrono::Timelike::hour(&now),
        minute: chrono::Timelike::minute(&now),
        second: chrono::Timelike::second(&now),
    }
}

/// The local time of the call, written as `YYYY-MM-DD HH:MM:SS`.
pub fn current_formatted_time() -> (text: String)
    ensures
        exists|now: Timestamp| now.in_range() && text@ == timestamp_text(now),
{
    let now = local_now();
    format_timestamp(&now)
}

} // verus!
