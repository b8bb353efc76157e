//! Net name to net role.

use crate::mapping::pattern::{any_matches, matches_any, patterns_view};
use crate::text::{chars_of, is_prefix, starts_with};
use vstd::prelude::*;

verus! {

/// The electrical role of a net.
#[derive(Clone, Copy, Debug, PartialEq, Eq, Structural)]
pub enum NetType {
    /// Power net: VCC, VDD, +3V3.
    Power,
    /// Ground net: GND, VSS, DGND.
    Ground,
    /// Positive half of a differential pair.
    DiffPairP,
    /// Negative half of a differential pair.
    DiffPairN,
    /// Any other net.
    Signal,
}

/// The patterns of ground nets.
pub open spec fn ground_patterns() -> Seq<Seq<char>> {
    seq![
        "(?i)^GND"@,
        "(?i)^V(SS|EE)"@,
        "(?i)^DGND"@,
        "(?i)^AGND"@,
        "(?i)^PGND"@,
        "(?i)^SGND"@,
        "(?i)_GND$"@,
        "(?i)^0V$"@,
    ]
}

/// The patterns of power nets.
pub open spec fn power_patterns() -> Seq<Seq<char>> {
    seq![
        "(?i)^V(CC|DD|BAT|IN|OUT|BUS)"@,
        "(?i)^\\+\\d+V"@,
        "(?i)^\\d+V\\d*"@,
        "(?i)^PWR"@,
        "(?i)_PWR$"@,
        "(?i)^VREF"@,
        "(?i)^AVDD"@,
        "(?i)^DVDD"@,
    ]
}

/// The patterns of the positive half of a differential pair.
pub open spec fn diff_p_patterns() -> Seq<Seq<char>> {
    seq!["(?i)[_\\-]P$"@, "(?i)\\+$"@, "(?i)_DP$"@, "(?i)_POS$"@]
}

/// The patterns of the negative half of a differential pair.
pub open spec fn diff_n_patterns() -> Seq<Seq<char>> {
    seq!["(?i)[_\\-]N$"@, "(?i)\\-$"@, "(?i)_DN$"@, "(?i)_NEG$"@]
}

/// Whether a net name is never surfaced as a declared net: the empty name
/// and the names that start with the marker of unconnected pads.
pub open spec fn is_unconnected(name: Seq<char>) -> bool {
    name.len() == 0 || is_prefix("unconnected-"@, name)
}

/// The role of a net, given which rule sets its name matches. The order is
/// fixed: ground before power, so that a name both sets match is ground;
/// then the two halves of a differential pair; with no match, a signal.
/// Unconnected names are signals whatever they match.
pub open spec fn net_type_from(
    name: Seq<char>,
    ground: bool,
    power: bool,
    diff_p: bool,
    diff_n: bool,
) -> NetType {
    if is_unconnected(name) {
        NetType::Signal
    } else if ground {
        NetType::Ground
    } else if power {
        NetType::Power
    } else if diff_p {
        NetType::DiffPairP
    } else if diff_n {
        NetType::DiffPairN
    } else {
        NetType::Signal
    }
}

/// The role of the net called `name`.
pub open spec fn net_type_of(name: Seq<char>) -> NetType {
    net_type_from(
        name,
        any_matches(ground_patterns(), name),
        any_matches(power_patterns(), name),
        any_matches(diff_p_patterns(), name),
        any_matches(diff_n_patterns(), name),
    )
}

fn ground_list() -> (v: Vec<&'static str>)
    ensures
        patterns_view(v@) == ground_patterns(),
{
    let v = vec![
        "(?i)^GND",
        "(?i)^V(SS|EE)",
        "(?i)^DGND",
        "(?i)^AGND",
        "(?i)^PGND",
        "(?i)^SGND",
        "(?i)_GND$",
        "(?i)^0V$",
    ];
    assert(patterns_view(v@) =~= ground_patterns());
    v
}

fn power_list() -> (v: Vec<&'static str>)
    ensures
        patterns_view(v@) == power_patterns(),
{
    let v = vec![
        "(?i)^V(CC|DD|BAT|IN|OUT|BUS)",
        "(?i)^\\+\\d+V",
        "(?i)^\\d+V\\d*",
        "(?i)^PWR",
        "(?i)_PWR$",
        "(?i)^VREF",
        "(?i)^AVDD",
        "(?i)^DVDD",
    ];
    assert(patterns_view(v@) =~= power_patterns());
    v
}

fn diff_p_list() -> (v: Vec<&'static str>)
    ensures
        patterns_view(v@) == diff_p_patterns(),
{
    let v = vec!["(?i)[_\\-]P$", "(?i)\\+$", "(?i)_DP$", "(?i)_POS$"];
    assert(patterns_view(v@) =~= diff_p_patterns());
    v
}

fn diff_n_list() -> (v: Vec<&'static str>)
    ensures
        patterns_view(v@) == diff_n_patterns(),
{
    let v = vec!["(?i)[_\\-]N$", "(?i)\\-$", "(?i)_DN$", "(?i)_NEG$"];
    assert(patterns_view(v@) =~= diff_n_patterns());
    v
}

/// Whether a net name is never surfaced as a declared net.
pub fn is_unconnected_name(name: &str) -> (b: bool)
    ensures
        b == is_unconnected(name@),
{
    let chars = chars_of(name);
    let marker = chars_of("unconnected-");
    chars.len() == 0 || starts_with(&chars, &marker)
}

/// The role of a net from its name and from the outcome of the four rule
/// sets.
pub fn classify_net(name: &str, ground: bool, power: bool, diff_p: bool, diff_n: bool) -> (r:
    NetType)
    ensures
        r == net_type_from(name@, ground, power, diff_p, diff_n),
{
    if is_unconnected_name(name) {
        NetType::Signal
    } else if ground {
        NetType::Ground
    } else if power {
        NetType::Power
    } else if diff_p {
        NetType::DiffPairP
    } else if diff_n {
        NetType::DiffPairN
    } else {
        NetType::Signal
    }
}

/// The role of a net, inferred from its name.
pub fn infer_net_type(name: &str) -> (r: NetType)
    ensures
        r == net_type_of(name@),
{
    if is_unconnected_name(name) {
        return classify_net(name, false, false, false, false);
    }
    let ground = matches_any(&ground_list(), name);
    if ground {
        return classify_net(name, true, false, false, false);
    }
    let power = matches_any(&power_list(), name);
    if power {
        return classify_net(name, false, true, false, false);
    }
    let diff_p = matches_any(&diff_p_list(), name);
    if diff_p {
        return classify_net(name, false, false, true, false);
    }
    let diff_n = matches_any(&diff_n_list(), name);
    classify_net(name, false, false, false, diff_n)
}

/// The constructor that declares a net of that role: `Power`, `Ground`, or
/// `Net` for every other role.
pub open spec fn constructor_of(net_type: NetType) -> Seq<char> {
    match net_type {
        NetType::Power => "Power"@,
        NetType::Ground => "Ground"@,
        _ => "Net"@,
    }
}

/// The constructor that declares a net of that role.
pub fn net_type_constructor(net_type: &NetType) -> (r: &'static str)
    ensures
        r@ == constructor_of(*net_type),
{
    match net_type {
        NetType::Power => "Power",
        NetType::Ground => "Ground",
        NetType::DiffPairP => "Net",
        NetType::DiffPairN => "Net",
        NetType::Signal => "Net",
    }
}

/// Every name has exactly one of the five roles, and the ground rules come
/// first: a connected name that a ground pattern matches is a ground net,
/// whether or not a power pattern matches it too.
pub proof fn lemma_ground_before_power(name: Seq<char>)
    ensures
        net_type_of(name) == NetType::Power || net_type_of(name) == NetType::Ground
            || net_type_of(name) == NetType::DiffPairP || net_type_of(name) == NetType::DiffPairN
            || net_type_of(name) == NetType::Signal,
        !is_unconnected(name) && any_matches(ground_patterns(), name) ==> net_type_of(name)
            == NetType::Ground,
        net_type_of(name) == NetType::Power ==> !any_matches(ground_patterns(), name)
            && any_matches(power_patterns(), name),
        is_unconnected(name) ==> net_type_of(name) == NetType::Signal,
{
}

} // verus!
