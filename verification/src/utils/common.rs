//! Small helpers for messages and tables.

use vstd::prelude::*;
use vstd::string::*;
use crate::consts;
use crate::messages::{Action, Level};
use crate::text::{
    chars_of, concat3, is_digit, join, join_spec, matches_at, occurs_at, push_spaces, spaces,
    string_of, words_view,
};

verus! {

/// The warnings that many commands share.
pub enum MsgTemplate {
    UnsupportedAction,
    MissingParameters,
    InvalidParameters,
}

impl MsgTemplate {
    /// The text of the warning.
    pub open spec fn format_spec(self, arg1: Seq<char>, arg2: Seq<char>, arg3: Seq<char>) -> Seq<
        char,
    > {
        match self {
            MsgTemplate::UnsupportedAction => "Unsupported action: `"@ + arg1 + "`"@,
            MsgTemplate::MissingParameters => "Missing "@ + arg1 + " for `"@ + arg2
                + "` command: `"@ + arg3 + "`"@,
            MsgTemplate::InvalidParameters => "Invalid "@ + arg1 + " for `"@ + arg2
                + "` command: `"@ + arg3 + "`"@,
        }
    }

    /// Fills the template: `arg1` is what is unsupported, missing or invalid,
    /// `arg2` the command it belongs to, `arg3` the command as it was given.
    pub fn format(&self, arg1: &str, arg2: &str, arg3: &str) -> (out: String)
        ensures
            out@ == self.format_spec(arg1@, arg2@, arg3@),
    {
        match self {
            MsgTemplate::UnsupportedAction => {
                let mut out = String::from_str("Unsupported action: `");
                out.append(arg1);
                out.append("`");
                out
            },
            MsgTemplate::MissingParameters => {
                let mut out = String::from_str("Missing ");
                out.append(arg1);
                out.append(" for `");
                out.append(arg2);
                out.append("` command: `");
                out.append(arg3);
                out.append("`");
                out
            },
            MsgTemplate::InvalidParameters => {
                let mut out = String::from_str("Invalid ");
                out.append(arg1);
                out.append(" for `");
                out.append(arg2);
                out.append("` command: `");
                out.append(arg3);
                out.append("`");
                out
            },
        }
    }
}

/// `c` in lower case where it is an ASCII capital, else `c`.
pub open spec fn ascii_lower(c: char) -> char {
    if 'A' <= c <= 'Z' {
        ((c as u8) + 32) as char
    } else {
        c
    }
}

/// Whether `s` is `word` but for the case of ASCII letters.
pub open spec fn same_word(s: Seq<char>, word: Seq<char>) -> bool {
    s.len() == word.len() && forall|i: int|
        0 <= i < s.len() ==> ascii_lower(#[trigger] s[i]) == ascii_lower(word[i])
}

/// The letter that stands for a level given by name, `?` for any other name.
pub open spec fn level_str_spec(level: Seq<char>) -> Seq<char> {
    if same_word(level, "info"@) {
        "I"@
    } else if same_word(level, "warn"@) {
        "W"@
    } else if same_word(level, "error"@) {
        "E"@
    } else {
        "?"@
    }
}

fn lower(c: char) -> (out: char)
    ensures
        out == ascii_lower(c),
{
    let n: u32 = c as u32;
    if 65 <= n && n <= 90 {
        ((n as u8) + 32) as char
    } else {
        c
    }
}

fn is_word(v: &Vec<char>, word: &str) -> (out: bool)
    ensures
        out == same_word(v@, word@),
{
    let w = chars_of(word);
    if v.len() != w.len() {
        return false;
    }
    let mut i: usize = 0;
    while i < v.len()
        invariant
            i <= v.len(),
            v.len() == w.len(),
            w@ == word@,
            forall|j: int| 0 <= j < i ==> ascii_lower(#[trigger] v@[j]) == ascii_lower(w@[j]),
        decreases v.len() - i,
    {
        if lower(v[i]) != lower(w[i]) {
            return false;
        }
        i += 1;
    }
    true
}

/// One letter for a log level given by name, whatever its case.
pub fn level_str(level: &str) -> (out: &'static str)
    ensures
        out@ == level_str_spec(level@),
{
    let v = chars_of(level);
    if is_word(&v, "info") {
        "I"
    } else if is_word(&v, "warn") {
        "W"
    } else if is_word(&v, "error") {
        "E"
    } else {
        "?"
    }
}

/// The letter that stands for a level.
pub open spec fn level_to_str_spec(level: Level) -> Seq<char> {
    match level {
        Level::Info => "I"@,
        Level::Warn => "W"@,
        Level::Error => "E"@,
        _ => "?"@,
    }
}

/// One letter for a log level.
pub fn level_to_str(level: &Level) -> (out: &'static str)
    ensures
        out@ == level_to_str_spec(*level),
{
    match level {
        Level::Info => "I",
        Level::Warn => "W",
        Level::Error => "E",
        _ => "?",
    }
}

/// The address, or the mark for "not known".
pub fn get_tailscale_ip_str(tailscale_ip: &Option<String>) -> (out: String)
    ensures
        out@ == (match *tailscale_ip {
            Some(ip) => ip@,
            None => consts::NA@,
        }),
{
    match tailscale_ip {
        Some(ip) => ip.clone(),
        None => String::from_str(consts::NA),
    }
}

/// `s` where it has at most `prefix + suffix` characters; else its first
/// `prefix` characters, three dots, and its last `suffix` characters.
pub open spec fn shorten_spec(s: Seq<char>, prefix: nat, suffix: nat) -> Seq<char> {
    if s.len() <= prefix + suffix {
        s
    } else {
        s.take(prefix as int) + "..."@ + s.skip(s.len() - suffix)
    }
}

/// Shortens a long string by leaving out its middle.
pub fn shorten(s: &str, prefix: usize, suffix: usize) -> (out: String)
    ensures
        out@ == shorten_spec(s@, prefix as nat, suffix as nat),
{
    let v = chars_of(s);
    let len: usize = v.len();
    if prefix >= len || suffix >= len - prefix {
        return String::from_str(s);
    }
    let mut out = string_of(&v, 0, prefix);
    out.append("...");
    let tail = string_of(&v, len - suffix, len);
    out.append(tail.as_str());
    out
}

/// The number of terminal columns that a string takes.
pub uninterp spec fn display_width(s: Seq<char>) -> nat;

/// `unicode_width::UnicodeWidthStr::width`: the columns that `s` takes in a
/// terminal, as that crate's tables give them. Nothing more is claimed than
/// that the number depends on the characters alone.
#[verifier::external_body]
fn str_width(s: &str) -> (out: usize)
    ensures
        out == display_width(s@),
{
    unicode_width::UnicodeWidthStr::width(s)
}

/// `s`, then spaces up to `total_width` columns where `s` is narrower.
pub open spec fn pad_to_width(s: Seq<char>, width: nat, total_width: nat) -> Seq<char> {
    if width >= total_width {
        s
    } else {
        s + spaces((total_width - width) as nat)
    }
}

/// Pads `s` with spaces to `total_width` columns, given the `width` it takes.
pub fn pad_str_to(s: &str, width: usize, total_width: usize) -> (out: String)
    ensures
        out@ == pad_to_width(s@, width as nat, total_width as nat),
{
    let mut out = String::from_str(s);
    if width < total_width {
        push_spaces(&mut out, total_width - width);
    }
    out
}

/// Pads `s` with spaces to `total_width` terminal columns.
pub fn pad_str(s: &str, total_width: usize) -> (out: String)
    ensures
        out@ == pad_to_width(s@, display_width(s@), total_width as nat),
{
    pad_str_to(s, str_width(s), total_width)
}

/// The words of a command line, as `shell_words::split` reads them; `None`
/// where it reports an error.
pub uninterp spec fn shell_split(s: Seq<char>) -> Option<Seq<Seq<char>>>;

/// `shell_words::split`: splits a line into words as a Unix shell would, with
/// quotes removed. It fails on a quote that is never closed. Which words come
/// out is not stated here, only that they depend on the line alone.
#[verifier::external_body]
pub(crate) fn split_words(s: &str) -> (out: Option<Vec<String>>)
    ensures
        out matches Some(words) ==> shell_split(s@) == Some(words_view(words@)),
        out is None ==> shell_split(s@) is None,
{
    shell_words::split(s).ok()
}

/// A list of words as `{:?}` prints it: in square brackets, each word in
/// double quotes with its special characters escaped.
pub uninterp spec fn debug_text(words: Seq<Seq<char>>) -> Seq<char>;

/// `format!("{:?}", ..)` on a list of strings, as std's `Debug` prints it.
/// Only that the text depends on the words alone is claimed.
#[verifier::external_body]
pub(crate) fn debug_words(words: &Vec<String>) -> (out: String)
    ensures
        out@ == debug_text(words_view(words@)),
{
    format!("{:?}", words)
}

/// The form of a command, as warnings quote it.
pub const USAGE: &'static str = "p <plugin_name> <action> ...";

/// The action that the words of a command name, or the text of the warning
/// that says why they name none. The action is the third word.
pub open spec fn action_or_warning(parts: Seq<Seq<char>>) -> Result<Action, Seq<char>> {
    if parts.len() <= 2 {
        Err(MsgTemplate::MissingParameters.format_spec("<action>"@, USAGE@, join_spec(parts, " "@)))
    } else {
        match Action::named(parts[2]) {
            Some(action) => Ok(action),
            None => Err(
                MsgTemplate::InvalidParameters.format_spec(
                    "<action> (`"@ + parts[2] + "`)"@,
                    USAGE@,
                    join_spec(parts, " "@),
                ),
            ),
        }
    }
}

/// The words of a command line together with its action; or the text of
/// the warning that says why the line cannot be handled.
pub open spec fn cmd_action_spec(cmd: Seq<char>) -> Result<(Seq<Seq<char>>, Action), Seq<char>> {
    match shell_split(cmd) {
        None => Err("Failed to parse cmd `"@ + cmd + "`."@),
        Some(parts) => match action_or_warning(parts) {
            Ok(action) => Ok((parts, action)),
            Err(w) => Err(w),
        },
    }
}

/// Reads the action of a command from its words (see [`action_or_warning`]).
pub fn get_action(cmd_parts: &Vec<String>) -> (out: Result<Action, String>)
    ensures
        out matches Ok(action) ==> action_or_warning(words_view(cmd_parts@)) == Ok::<
            Action,
            Seq<char>,
        >(action),
        out matches Err(w) ==> action_or_warning(words_view(cmd_parts@)) == Err::<
            Action,
            Seq<char>,
        >(w@),
{
    if cmd_parts.len() <= 2 {
        let line = join(cmd_parts, " ");
        return Err(MsgTemplate::MissingParameters.format("<action>", USAGE, line.as_str()));
    }
    match Action::parse(cmd_parts[2].as_str()) {
        Some(action) => Ok(action),
        None => {
            let line = join(cmd_parts, " ");
            let what = concat3("<action> (`", cmd_parts[2].as_str(), "`)");
            Err(MsgTemplate::InvalidParameters.format(what.as_str(), USAGE, line.as_str()))
        },
    }
}

/// Splits a command line into words and reads its action (see
/// [`cmd_action_spec`]).
pub fn get_cmd_action(cmd: &str) -> (out: Result<(Vec<String>, Action), String>)
    ensures
        out matches Ok(pair) ==> cmd_action_spec(cmd@) == Ok::<
            (Seq<Seq<char>>, Action),
            Seq<char>,
        >((words_view(pair.0@), pair.1)),
        out matches Err(w) ==> cmd_action_spec(cmd@) == Err::<
            (Seq<Seq<char>>, Action),
            Seq<char>,
        >(w@),
{
    match split_words(cmd) {
        None => Err(concat3("Failed to parse cmd `", cmd, "`.")),
        Some(cmd_parts) => match get_action(&cmd_parts) {
            Ok(action) => Ok((cmd_parts, action)),
            Err(w) => Err(w),
        },
    }
}

/// A string as `{:?}` prints it: in double quotes, with its special
/// characters escaped.
pub uninterp spec fn debug_str_text(s: Seq<char>) -> Seq<char>;

/// `format!("{:?}", ..)` on a string, as std's `Debug` prints it. Only that
/// the text depends on the string alone is claimed.
#[verifier::external_body]
pub(crate) fn debug_str(s: &str) -> (out: String)
    ensures
        out@ == debug_str_text(s@),
{
    format!("{:?}", s)
}

/// An optional string as `{:?}` prints it.
pub open spec fn debug_option_spec(s: Option<Seq<char>>) -> Seq<char> {
    match s {
        Some(s) => "Some("@ + debug_str_text(s) + ")"@,
        None => "None"@,
    }
}

/// An optional string in one word, for the log.
pub fn debug_option(s: &Option<String>) -> (out: String)
    ensures
        out@ == debug_option_spec(
            match *s {
                Some(s) => Some(s@),
                None => None,
            },
        ),
{
    match s {
        Some(s) => concat3("Some(", debug_str(s.as_str()).as_str(), ")"),
        None => String::from_str("None"),
    }
}

/// The lines that list the files of a folder: a heading, then one line for
/// each file, or one line that says that there is none.
pub open spec fn list_files_spec(files: Seq<Seq<char>>) -> Seq<Seq<char>> {
    if files.len() == 0 {
        seq!["  Files:"@, "    (no files)"@]
    } else {
        seq!["  Files:"@] + Seq::new(files.len(), |i: int| "    - "@ + files[i])
    }
}

/// Writes the list of the files of a folder, given their paths below the
/// folder.
pub fn list_files_lines(files: &Vec<String>) -> (out: Vec<String>)
    ensures
        words_view(out@) == list_files_spec(words_view(files@)),
{
    let mut out: Vec<String> = Vec::new();
    out.push(String::from_str("  Files:"));
    if files.len() == 0 {
        out.push(String::from_str("    (no files)"));
        assert(words_view(out@) =~= list_files_spec(words_view(files@)));
        return out;
    }
    let mut i: usize = 0;
    while i < files.len()
        invariant
            i <= files.len(),
            out.len() == i + 1,
            out@[0]@ == "  Files:"@,
            forall|j: int| 1 <= j <= i ==> (#[trigger] out@[j])@ == "    - "@ + files@[j - 1]@,
        decreases files.len() - i,
    {
        out.push(crate::text::concat("    - ", files[i].as_str()));
        i += 1;
    }
    assert(words_view(out@) =~= list_files_spec(words_view(files@)));
    out
}

/// The number of ASCII digits at the start of `s`.
pub open spec fn digits_len(s: Seq<char>) -> nat
    decreases s.len(),
{
    if s.len() > 0 && is_digit(s[0]) {
        1 + digits_len(s.drop_first())
    } else {
        0
    }
}

/// The length of the dotted number at the start of `s`: `groups` groups of
/// one or more digits, with dots between them. `None` where `s` does not
/// start with such a number.
pub open spec fn dotted_len(s: Seq<char>, groups: nat) -> Option<nat>
    decreases groups,
{
    let n = digits_len(s);
    if groups == 0 || n == 0 {
        None
    } else if groups == 1 {
        Some(n)
    } else if s.len() > n && s[n as int] == '.' {
        match dotted_len(s.skip(n as int + 1), (groups - 1) as nat) {
            Some(m) => Some(n + 1 + m),
            None => None,
        }
    } else {
        None
    }
}

/// The address that stands at place `i` of `s`, where the word `inet`, a
/// space and a dotted number of four groups stand there.
pub open spec fn inet_at(s: Seq<char>, i: int) -> Option<Seq<char>> {
    if occurs_at(s, "inet "@, i) {
        match dotted_len(s.skip(i + 5), 4) {
            Some(n) => Some(s.subrange(i + 5, i + 5 + n)),
            None => None,
        }
    } else {
        None
    }
}

/// The first address that follows the word `inet` in `s`, looked for from
/// place `i` on.
pub open spec fn inet_from(s: Seq<char>, i: nat) -> Option<Seq<char>>
    decreases s.len() - i,
{
    if i >= s.len() {
        None
    } else {
        match inet_at(s, i as int) {
            Some(a) => Some(a),
            None => inet_from(s, i + 1),
        }
    }
}

fn digits_end(v: &Vec<char>, from: usize) -> (end: usize)
    requires
        from <= v.len(),
    ensures
        from <= end <= v.len(),
        end - from == digits_len(v@.skip(from as int)),
{
    let mut i: usize = from;
    while i < v.len() && parse_unsigned_digit(v[i])
        invariant
            from <= i <= v.len(),
            digits_len(v@.skip(from as int)) == (i - from) + digits_len(v@.skip(i as int)),
        decreases v.len() - i,
    {
        proof {
            assert(v@.skip(i as int)[0] == v@[i as int]);
            assert(v@.skip(i as int).drop_first() == v@.skip(i + 1));
        }
        i += 1;
    }
    proof {
        if i < v.len() {
            assert(v@.skip(i as int)[0] == v@[i as int]);
        }
    }
    i
}

fn parse_unsigned_digit(c: char) -> (out: bool)
    ensures
        out == is_digit(c),
{
    c == '0' || c == '1' || c == '2' || c == '3' || c == '4' || c == '5' || c == '6' || c == '7'
        || c == '8' || c == '9'
}

fn dotted_end(v: &Vec<char>, from: usize, groups: usize) -> (out: Option<usize>)
    requires
        from <= v.len(),
    ensures
        out matches Some(end) ==> from <= end <= v.len() && dotted_len(
            v@.skip(from as int),
            groups as nat,
        ) == Some((end - from) as nat),
        out is None ==> dotted_len(v@.skip(from as int), groups as nat) is None,
    decreases groups,
{
    let end = digits_end(v, from);
    if groups == 0 || end == from {
        return None;
    }
    if groups == 1 {
        return Some(end);
    }
    proof {
        let s = v@.skip(from as int);
        let n = (end - from) as int;
        if end < v.len() {
            assert(s[n] == v@[end as int]);
            assert(s.skip(n + 1) == v@.skip(end + 1));
        }
    }
    if end < v.len() && v[end] == '.' {
        dotted_end(v, end + 1, groups - 1)
    } else {
        None
    }
}

/// Reads the address of an interface from what `ifconfig` prints of it: the
/// first dotted number of four groups that follows the word `inet` and a
/// space.
pub fn inet_address(block: &str) -> (out: Option<String>)
    ensures
        out is Some == inet_from(block@, 0) is Some,
        out matches Some(a) ==> inet_from(block@, 0) == Some(a@),
{
    let v = chars_of(block);
    let word = chars_of("inet ");
    proof {
        reveal_strlit("inet ");
        assert("inet "@.len() == 5);
    }
    let mut i: usize = 0;
    while i < v.len()
        invariant
            i <= v.len(),
            v@ == block@,
            word@ == "inet "@,
            word.len() == 5,
            inet_from(v@, 0) == inet_from(v@, i as nat),
        decreases v.len() - i,
    {
        if v.len() - i >= 5 && matches_at(&v, &word, i) {
            match dotted_end(&v, i + 5, 4) {
                Some(end) => {
                    return Some(string_of(&v, i + 5, end));
                },
                None => {},
            }
        }
        i += 1;
    }
    None
}

/// An address of a network interface, as text. `first_octet` is the first
/// byte of the address where it is an address of IPv4.
#[derive(Debug)]
pub struct NetAddress {
    pub text: String,
    pub first_octet: Option<u8>,
}

/// A network interface and its addresses.
#[derive(Debug)]
pub struct Interface {
    pub name: String,
    pub addresses: Vec<NetAddress>,
}

/// A [`NetAddress`] as a plain value.
pub struct NetAddressView {
    pub text: Seq<char>,
    pub first_octet: Option<u8>,
}

/// An [`Interface`] as a plain value.
pub struct InterfaceView {
    pub name: Seq<char>,
    pub addresses: Seq<NetAddressView>,
}

impl View for NetAddress {
    type V = NetAddressView;

    open spec fn view(&self) -> NetAddressView {
        NetAddressView { text: self.text@, first_octet: self.first_octet }
    }
}

impl View for Interface {
    type V = InterfaceView;

    open spec fn view(&self) -> InterfaceView {
        InterfaceView {
            name: self.name@,
            addresses: Seq::new(self.addresses@.len(), |i: int| self.addresses@[i]@),
        }
    }
}

/// The views of a sequence of interfaces.
pub open spec fn interfaces_view(v: Seq<Interface>) -> Seq<InterfaceView> {
    Seq::new(v.len(), |i: int| v[i]@)
}

/// The first byte of the addresses of the network.
pub const TAILSCALE_OCTET: u8 = 100;

/// The first address of IPv4 from place `from` on; with `only_network`,
/// the first that lies in the network.
pub open spec fn first_v4(addresses: Seq<NetAddressView>, only_network: bool, from: nat) -> Option<
    Seq<char>,
>
    decreases addresses.len() - from,
{
    if from >= addresses.len() {
        None
    } else {
        match addresses[from as int].first_octet {
            Some(octet) => if !only_network || octet == TAILSCALE_OCTET {
                Some(addresses[from as int].text)
            } else {
                first_v4(addresses, only_network, from + 1)
            },
            None => first_v4(addresses, only_network, from + 1),
        }
    }
}

/// The address of this machine in the network that an interface gives: the
/// first address of IPv4 of an interface whose name starts with
/// `tailscale`, or the first address in the network of one whose name
/// starts with `utun`.
pub open spec fn interface_ip(interface: InterfaceView) -> Option<Seq<char>> {
    if occurs_at(interface.name, "tailscale"@, 0) && first_v4(interface.addresses, false, 0)
        is Some {
        first_v4(interface.addresses, false, 0)
    } else if occurs_at(interface.name, "utun"@, 0) {
        first_v4(interface.addresses, true, 0)
    } else {
        None
    }
}

/// The address that the first interface from place `from` on gives that
/// gives one.
pub open spec fn tailscale_ip_from(interfaces: Seq<InterfaceView>, from: nat) -> Option<Seq<char>>
    decreases interfaces.len() - from,
{
    if from >= interfaces.len() {
        None
    } else {
        match interface_ip(interfaces[from as int]) {
            Some(ip) => Some(ip),
            None => tailscale_ip_from(interfaces, from + 1),
        }
    }
}

fn find_v4(interface: &Interface, only_network: bool) -> (out: Option<String>)
    ensures
        out is Some == first_v4(interface@.addresses, only_network, 0) is Some,
        out matches Some(ip) ==> first_v4(interface@.addresses, only_network, 0) == Some(ip@),
{
    let ghost all = interface@.addresses;
    let mut i: usize = 0;
    while i < interface.addresses.len()
        invariant
            i <= interface.addresses.len(),
            all == interface@.addresses,
            first_v4(all, only_network, 0) == first_v4(all, only_network, i as nat),
        decreases interface.addresses.len() - i,
    {
        let address = &interface.addresses[i];
        proof {
            assert(all[i as int] == interface.addresses@[i as int]@);
        }
        match address.first_octet {
            Some(octet) => {
                if !only_network || octet == TAILSCALE_OCTET {
                    return Some(address.text.clone());
                }
            },
            None => {},
        }
        i += 1;
    }
    None
}

fn starts_with(name: &Vec<char>, prefix: &str) -> (out: bool)
    ensures
        out == occurs_at(name@, prefix@, 0),
{
    let p = chars_of(prefix);
    if p.len() > name.len() {
        return false;
    }
    matches_at(name, &p, 0)
}

/// Picks the address of this machine in the network from the interfaces of
/// the machine, in the order given (see [`tailscale_ip_from`]).
pub fn pick_tailscale_ip(interfaces: &Vec<Interface>) -> (out: Option<String>)
    ensures
        out is Some == tailscale_ip_from(interfaces_view(interfaces@), 0) is Some,
        out matches Some(ip) ==> tailscale_ip_from(interfaces_view(interfaces@), 0) == Some(ip@),
{
    let ghost all = interfaces_view(interfaces@);
    let mut i: usize = 0;
    while i < interfaces.len()
        invariant
            i <= interfaces.len(),
            all == interfaces_view(interfaces@),
            tailscale_ip_from(all, 0) == tailscale_ip_from(all, i as nat),
        decreases interfaces.len() - i,
    {
        let interface = &interfaces[i];
        proof {
            assert(all[i as int] == interfaces@[i as int]@);
        }
        let name = chars_of(interface.name.as_str());
        if starts_with(&name, "tailscale") {
            match find_v4(interface, false) {
                Some(ip) => {
                    return Some(ip);
                },
                None => {},
            }
        }
        if starts_with(&name, "utun") {
            match find_v4(interface, true) {
                Some(ip) => {
                    return Some(ip);
                },
                None => {},
            }
        }
        i += 1;
    }
    None
}

} // verus!
