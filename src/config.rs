use vstd::prelude::*;
use vstd::string::StrSliceExecFns;

verus! {

/// Width of the axis range at sensitivity one; also the axis resolution.
pub const BASE_RANGE: i32 = 1024;

/// Position the axis starts from and rests at.
pub const BASE_DEFAULT_POSITION: i32 = 0;

/// Largest sensitivity whose axis range still fits in an `i32`.
pub const MAX_SENSITIVITY: i32 = 2097151;

/// The tunables of the remapper.
///
/// The fields are taken as they come from a configuration file: none is
/// validated. The axis range is derived from the sensitivity after bringing it
/// into `1..=MAX_SENSITIVITY`, so that the range is never inverted, never a
/// single point, and always fits in an `i32`.
#[derive(Clone, Copy, Debug, PartialEq, Eq, Structural)]
pub struct Config {
    pub sensitivity: i32,
    pub dead_zone: i32,
    pub flat: i32,
    pub gui: bool,
}

/// The sensitivity that the axis range is derived from.
pub open spec fn effective_sensitivity(s: int) -> int {
    if s < 1 {
        1
    } else if s > MAX_SENSITIVITY {
        MAX_SENSITIVITY as int
    } else {
        s
    }
}

/// Upper bound of the axis range for a given sensitivity.
pub open spec fn spec_range_max(s: int) -> int {
    (effective_sensitivity(s) * BASE_RANGE) / 2
}

/// Lower bound of the axis range for a given sensitivity.
pub open spec fn spec_range_min(s: int) -> int {
    -(effective_sensitivity(s) * BASE_RANGE) / 2
}

/// Half the range width, for a sensitivity already brought into range.
proof fn lemma_half_range(e: int)
    requires
        1 <= e <= MAX_SENSITIVITY,
    ensures
        (e * BASE_RANGE) / 2 == e * (BASE_RANGE / 2),
        -(e * BASE_RANGE) / 2 == -(e * (BASE_RANGE / 2)),
        512 <= e * (BASE_RANGE / 2) <= i32::MAX,
{
    assert(e * 1024 == (e * 512) * 2) by (nonlinear_arith);
    assert(-(e * 1024) == 2 * (-(e * 512))) by (nonlinear_arith);
    assert(e * 1024 == 2 * (e * 512)) by (nonlinear_arith);
    vstd::arithmetic::div_mod::lemma_div_multiples_vanish(e * 512, 2);
    vstd::arithmetic::div_mod::lemma_div_multiples_vanish(-(e * 512), 2);
    assert(512 <= e * 512 <= MAX_SENSITIVITY * 512) by (nonlinear_arith)
        requires
            1 <= e <= MAX_SENSITIVITY,
    ;
}

/// Account name under which an elevated process runs.
pub open spec fn root_user() -> Seq<char> {
    seq!['r', 'o', 'o', 't']
}

/// `rel` appended to the directory `dir` as a path component: a separator is
/// added only where `dir` is not empty and does not already end in one.
pub open spec fn join_path(dir: Seq<char>, rel: Seq<char>) -> Seq<char> {
    if dir.len() == 0 {
        rel
    } else if dir.last() == '/' {
        dir + rel
    } else {
        dir.push('/') + rel
    }
}

/// Where the configuration file is looked for. `sudo_user` is the account
/// that invoked an elevated process, if any; `config_dir` is the standard
/// configuration directory of the running account, if one is known.
pub open spec fn config_path(sudo_user: Option<Seq<char>>, config_dir: Option<Seq<char>>) -> Seq<
    char,
> {
    match sudo_user {
        Some(u) if u != root_user() => "/home/"@ + u + "/.config/mouse2joy/config.toml"@,
        _ => join_path(
            match config_dir {
                Some(d) => d,
                None => Seq::empty(),
            },
            "mouse2joy/config.toml"@,
        ),
    }
}

/// Relies on `String::push_str`: appends `t` to `s`.
#[verifier::external_body]
fn push_str(s: &mut String, t: &str)
    ensures
        final(s)@ == old(s)@ + t@,
{
    s.push_str(t)
}

/// Whether two strings hold the same characters.
fn same_chars(a: &str, b: &str) -> (r: bool)
    ensures
        r == (a@ == b@),
{
    let n = a.unicode_len();
    if n != b.unicode_len() {
        return false;
    }
    let mut i: usize = 0;
    while i < n
        invariant
            n == a@.len() == b@.len(),
            i <= n,
            forall|k: int| 0 <= k < i ==> a@[k] == b@[k],
        decreases n - i,
    {
        if a.get_char(i) != b.get_char(i) {
            return false;
        }
        i = i + 1;
    }
    assert(a@ =~= b@);
    true
}

/// The parameters of one absolute axis of the virtual device.
#[derive(Clone, Copy, Debug, PartialEq, Eq, Structural)]
pub struct AxisInfo {
    pub value: i32,
    pub minimum: i32,
    pub maximum: i32,
    pub fuzz: i32,
    pub flat: i32,
    pub resolution: i32,
}

/// The built-in baseline configuration.
pub open spec fn default_config() -> Config {
    Config { sensitivity: 1, dead_zone: 0, flat: 0, gui: true }
}

impl Config {
    /// The built-in baseline: sensitivity one, no dead zone, no flat zone.
    pub fn default() -> (r: Config)
        ensures
            r == default_config(),
            r.sensitivity == 1,
            r.dead_zone == 0,
            r.flat == 0,
            r.gui,
    {
        Config { sensitivity: 1, dead_zone: 0, flat: 0, gui: true }
    }

    /// The sensitivity brought into `1..=MAX_SENSITIVITY`.
    pub fn effective_sensitivity(&self) -> (r: i32)
        ensures
            r == effective_sensitivity(self.sensitivity as int),
            1 <= r <= MAX_SENSITIVITY,
    {
        if self.sensitivity < 1 {
            1
        } else if self.sensitivity > MAX_SENSITIVITY {
            MAX_SENSITIVITY
        } else {
            self.sensitivity
        }
    }

    pub fn range_min(&self) -> (r: i32)
        ensures
            r == spec_range_min(self.sensitivity as int),
    {
        let s = self.effective_sensitivity();
        proof {
            lemma_half_range(s as int);
        }
        -(s * (BASE_RANGE / 2))
    }

    pub fn range_max(&self) -> (r: i32)
        ensures
            r == spec_range_max(self.sensitivity as int),
    {
        let s = self.effective_sensitivity();
        proof {
            lemma_half_range(s as int);
        }
        s * (BASE_RANGE / 2)
    }

    /// Where the configuration file is looked for: in the invoking user's
    /// home when an elevated process was started by someone other than root,
    /// else under the standard configuration directory.
    pub fn path(sudo_user: Option<&str>, config_dir: Option<&str>) -> (r: String)
        ensures
            r@ == config_path(
                match sudo_user {
                    Some(u) => Some(u@),
                    None => None,
                },
                match config_dir {
                    Some(d) => Some(d@),
                    None => None,
                },
            ),
    {
        let root = "root";
        proof {
            reveal_strlit("root");
            assert(root@ =~= root_user());
        }
        match sudo_user {
            Some(u) => {
                if !same_chars(u, root) {
                    let mut p = "/home/".to_owned();
                    push_str(&mut p, u);
                    push_str(&mut p, "/.config/mouse2joy/config.toml");
                    return p;
                }
            },
            None => {},
        }
        let dir: &str = match config_dir {
            Some(d) => d,
            None => "",
        };
        proof {
            reveal_strlit("");
        }
        let n = dir.unicode_len();
        if n == 0 {
            "mouse2joy/config.toml".to_owned()
        } else {
            let mut p = dir.to_owned();
            if dir.get_char(n - 1) != '/' {
                push_str(&mut p, "/");
                proof {
                    reveal_strlit("/");
                    assert(p@ =~= dir@.push('/'));
                }
            }
            push_str(&mut p, "mouse2joy/config.toml");
            p
        }
    }

    /// Noise tolerance handed to the virtual axis: the dead zone.
    pub fn fuzz(&self) -> (r: i32)
        ensures
            r == self.dead_zone,
    {
        self.dead_zone
    }

    /// Initial and resting position of the axis.
    pub fn value(&self) -> (r: i32)
        ensures
            r == BASE_DEFAULT_POSITION,
    {
        BASE_DEFAULT_POSITION
    }

    pub fn resolution(&self) -> (r: i32)
        ensures
            r == BASE_RANGE,
    {
        BASE_RANGE
    }

    pub fn flat(&self) -> (r: i32)
        ensures
            r == self.flat,
    {
        self.flat
    }

    /// The parameters shared by both axes of the virtual joystick.
    pub fn axis_info(&self) -> (r: AxisInfo)
        ensures
            r.value == BASE_DEFAULT_POSITION,
            r.minimum == spec_range_min(self.sensitivity as int),
            r.maximum == spec_range_max(self.sensitivity as int),
            r.fuzz == self.dead_zone,
            r.flat == self.flat,
            r.resolution == BASE_RANGE,
    {
        AxisInfo {
            value: self.value(),
            minimum: self.range_min(),
            maximum: self.range_max(),
            fuzz: self.fuzz(),
            flat: self.flat(),
            resolution: self.resolution(),
        }
    }
}

/// The range is symmetric about zero, for every sensitivity.
pub proof fn lemma_range_symmetric(s: int)
    ensures
        spec_range_min(s) == -spec_range_max(s),
        spec_range_min(s) <= BASE_DEFAULT_POSITION <= spec_range_max(s),
        spec_range_min(s) < spec_range_max(s),
{
    let e = effective_sensitivity(s);
    assert(e * 1024 == 2 * (e * 512)) by (nonlinear_arith);
    assert(e * 512 >= 512) by (nonlinear_arith)
        requires
            e >= 1,
    ;
}

/// What was found where the configuration file should be.
pub enum ConfigLookup {
    /// No file at the configuration path.
    Missing,
    /// A file that could not be read or parsed.
    Malformed,
    /// A file that parsed into a configuration.
    Parsed(Config),
}

/// The configuration to run with: the parsed one if there is one, else the
/// built-in default. A missing or malformed file is never an error.
pub fn load_config(lookup: ConfigLookup) -> (r: Config)
    ensures
        match lookup {
            ConfigLookup::Parsed(c) => r == c,
            _ => r == default_config(),
        },
{
    match lookup {
        ConfigLookup::Parsed(c) => c,
        _ => Config::default(),
    }
}

} // verus!
