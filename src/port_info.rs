use vstd::prelude::*;

verus! {

/// What `str::to_lowercase` makes of a string.
pub uninterp spec fn lower_of(s: Seq<char>) -> Seq<char>;

/// Relies on `str::to_lowercase`: the lower-case form of `s`, which depends on
/// its characters alone.
#[verifier::external_body]
fn lowercase(s: &str) -> (r: String)
    ensures
        r@ == lower_of(s@),
{
    s.to_lowercase()
}

/// `p` occurs in `s` at position `i`.
pub open spec fn occurs_at(s: Seq<char>, p: Seq<char>, i: int) -> bool {
    0 <= i && i + p.len() <= s.len() && s.subrange(i, i + p.len()) == p
}

/// `p` occurs somewhere in `s`.
pub open spec fn seq_contains(s: Seq<char>, p: Seq<char>) -> bool {
    exists|i: int| occurs_at(s, p, i)
}

/// Path fragment shared by pseudo-terminals (`/dev/pts/N`, `/dev/ptyXY`).
pub open spec fn pty_fragment() -> Seq<char> {
    "/dev/pt"@
}

/// Prefix of Bluetooth RF-communication devices.
pub open spec fn rfcomm_prefix() -> Seq<char> {
    "/dev/rfcomm"@
}

/// Marker of Bluetooth devices, compared in lower case.
pub open spec fn bluetooth_marker() -> Seq<char> {
    "bluetooth"@
}

/// How a device path is classified.
#[derive(Clone, Copy, Debug, PartialEq, Eq, Structural)]
pub struct PortTypeInfo {
    pub is_symlink: bool,
    pub is_pseudo_terminal: bool,
    pub is_bluetooth: bool,
}

/// The classification of `path`, given its lower-case form, whether it is a
/// symbolic link, and the link's target (empty when it cannot be read).
pub open spec fn port_type_spec(
    path: Seq<char>,
    lowered: Seq<char>,
    is_symlink: bool,
    link_target: Seq<char>,
) -> PortTypeInfo {
    let resolved = if is_symlink {
        link_target
    } else {
        path
    };
    PortTypeInfo {
        is_symlink,
        is_pseudo_terminal: seq_contains(resolved, pty_fragment()) || seq_contains(
            path,
            pty_fragment(),
        ),
        is_bluetooth: seq_contains(lowered, bluetooth_marker()) || occurs_at(
            path,
            rfcomm_prefix(),
            0,
        ),
    }
}

fn chars_of(s: &str) -> (r: Vec<char>)
    ensures
        r@ == s@,
{
    let n = s.unicode_len();
    let mut out: Vec<char> = Vec::new();
    let mut i: usize = 0;
    while i < n
        invariant
            n == s@.len(),
            i <= n,
            out@ == s@.subrange(0, i as int),
        decreases n - i,
    {
        out.push(s.get_char(i));
        i = i + 1;
        assert(out@ =~= s@.subrange(0, i as int));
    }
    assert(out@ =~= s@);
    out
}

fn occurs_at_exec(s: &Vec<char>, p: &Vec<char>, i: usize) -> (r: bool)
    requires
        i + p@.len() <= s@.len(),
    ensures
        r == occurs_at(s@, p@, i as int),
{
    let n = s.len();
    let mut j: usize = 0;
    while j < p.len()
        invariant
            n == s@.len(),
            i + p@.len() <= s@.len(),
            j <= p@.len(),
            forall|m: int| 0 <= m < j ==> s@[i + m] == p@[m],
        decreases p@.len() - j,
    {
        if s[i + j] != p[j] {
            assert(s@.subrange(i as int, i + p@.len())[j as int] != p@[j as int]);
            return false;
        }
        j = j + 1;
    }
    assert(s@.subrange(i as int, i + p@.len()) =~= p@);
    true
}

fn contains_exec(s: &Vec<char>, p: &Vec<char>) -> (r: bool)
    ensures
        r == seq_contains(s@, p@),
{
    if p.len() > s.len() {
        return false;
    }
    let last = s.len() - p.len();
    let mut i: usize = 0;
    loop
        invariant
            last == s@.len() - p@.len(),
            i <= last,
            forall|k: int| 0 <= k < i ==> !occurs_at(s@, p@, k),
        decreases last - i,
    {
        if occurs_at_exec(s, p, i) {
            return true;
        }
        if i == last {
            return false;
        }
        i = i + 1;
    }
}

/// Classifies `path` from its lower-case form `lowered`, whether it is a
/// symbolic link and the link's target: a pseudo-terminal when the path or
/// the target holds `/dev/pt`; Bluetooth when the lower-case form holds
/// `bluetooth` or the path starts with `/dev/rfcomm`.
pub fn classify_port(path: &str, lowered: &str, is_symlink: bool, link_target: &str) -> (r:
    PortTypeInfo)
    ensures
        r == port_type_spec(path@, lowered@, is_symlink, link_target@),
{
    let path_chars = chars_of(path);
    let pty = chars_of("/dev/pt");
    let pty_in_path = contains_exec(&path_chars, &pty);
    let pty_in_target = if is_symlink {
        contains_exec(&chars_of(link_target), &pty)
    } else {
        pty_in_path
    };
    let bluetooth = contains_exec(&chars_of(lowered), &chars_of("bluetooth"));
    let rfcomm = chars_of("/dev/rfcomm");
    let rfcomm_prefixed = rfcomm.len() <= path_chars.len() && occurs_at_exec(
        &path_chars,
        &rfcomm,
        0,
    );
    PortTypeInfo {
        is_symlink,
        is_pseudo_terminal: pty_in_target || pty_in_path,
        is_bluetooth: bluetooth || rfcomm_prefixed,
    }
}

/// Classifies a device path as `classify_port` does, folding it to lower case first.
pub fn get_port_type_info(path: &str, is_symlink: bool, link_target: &str) -> (r: PortTypeInfo)
    ensures
        r == port_type_spec(path@, lower_of(path@), is_symlink, link_target@),
{
    let lowered = lowercase(path);
    classify_port(path, lowered.as_str(), is_symlink, link_target)
}

/// An enumerated device: its path, whether the transport reports it as a
/// Bluetooth port, whether the path is a symbolic link, and the link's target
/// (empty when the path is no link or the target cannot be read).
pub struct PortListing {
    pub name: String,
    pub transport_bluetooth: bool,
    pub is_symlink: bool,
    pub link_target: String,
}

/// `"1"` for a set flag, `"0"` otherwise.
pub open spec fn flag_text(b: bool) -> Seq<char> {
    if b {
        "1"@
    } else {
        "0"@
    }
}

/// The record of one device: path, symlink, pseudo-terminal and Bluetooth
/// flags, separated by tabs. A device is Bluetooth when the transport says so
/// or its path does.
pub open spec fn listing_line(p: PortListing) -> Seq<char> {
    let info = port_type_spec(p.name@, lower_of(p.name@), p.is_symlink, p.link_target@);
    p.name@ + "\t"@ + flag_text(info.is_symlink) + "\t"@ + flag_text(info.is_pseudo_terminal)
        + "\t"@ + flag_text(p.transport_bluetooth || info.is_bluetooth)
}

/// The records of all devices, in order, separated by newlines.
pub open spec fn listing_text(ps: Seq<PortListing>) -> Seq<char>
    decreases ps.len(),
{
    if ps.len() == 0 {
        Seq::empty()
    } else if ps.len() == 1 {
        listing_line(ps[0])
    } else {
        listing_text(ps.drop_last()) + "\n"@ + listing_line(ps.last())
    }
}

fn push_flag(text: &mut String, b: bool)
    ensures
        final(text)@ == old(text)@ + flag_text(b),
{
    if b {
        text.append("1");
    } else {
        text.append("0");
    }
}

fn listing_line_exec(p: &PortListing) -> (r: String)
    ensures
        r@ == listing_line(*p),
{
    let info = get_port_type_info(p.name.as_str(), p.is_symlink, p.link_target.as_str());
    let mut line = String::from_str(p.name.as_str());
    line.append("\t");
    push_flag(&mut line, info.is_symlink);
    line.append("\t");
    push_flag(&mut line, info.is_pseudo_terminal);
    line.append("\t");
    push_flag(&mut line, p.transport_bluetooth || info.is_bluetooth);
    line
}

/// The text listing of the enumerated devices, one record per line.
pub fn list_ports_text(ports: &Vec<PortListing>) -> (r: String)
    ensures
        r@ == listing_text(ports@),
{
    let mut text = String::from_str("");
    proof {
        reveal_strlit("");
    }
    let mut i: usize = 0;
    while i < ports.len()
        invariant
            i <= ports@.len(),
            text@ == listing_text(ports@.subrange(0, i as int)),
        decreases ports@.len() - i,
    {
        let line = listing_line_exec(&ports[i]);
        if i > 0 {
            text.append("\n");
        }
        text.append(line.as_str());
        let ghost done = ports@.subrange(0, i + 1);
        assert(done.drop_last() =~= ports@.subrange(0, i as int));
        assert(done.last() == ports@[i as int]);
        i = i + 1;
    }
    assert(ports@.subrange(0, i as int) =~= ports@);
    text
}

} // verus!
