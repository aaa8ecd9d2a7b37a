//! The expectation model: what the operator asked the probe to hold the
//! interface to, built from the raw option values of the command line.

use vstd::prelude::*;
use crate::text::{
    spec_parse_i32, parse_i32, str_eq,
};

verus! {

/// An expected duplex mode.
#[derive(Clone, Copy, PartialEq, Eq, Structural, Debug)]
pub enum Duplex {
    Half,
    Full,
}

/// Which address families the address-presence check considers.
#[derive(Clone, Copy, PartialEq, Eq, Structural, Debug)]
pub enum AddressCheck {
    Disabled,
    Ipv4,
    Ipv6,
    Both,
}

/// A configuration the probe cannot run with, and why.
#[derive(Clone, Copy, PartialEq, Eq, Structural, Debug)]
pub enum ConfigError {
    MtuNotInteger,
    SpeedNotInteger,
    InvalidLinkMode,
    InvalidAddressType,
    MissingInterface,
}

impl ConfigError {
    /// The single-line description of the error.
    pub open spec fn spec_message(self) -> Seq<char> {
        match self {
            ConfigError::MtuNotInteger => "Can't convert MTU to an integer"@,
            ConfigError::SpeedNotInteger => "Can't convert link speed to an integer"@,
            ConfigError::InvalidLinkMode => "Invalid link mode"@,
            ConfigError::InvalidAddressType => "Invalid parameter for address assignment check"@,
            ConfigError::MissingInterface => "Interface to check is mandatory"@,
        }
    }

    /// Renders the error as its single-line description.
    pub fn message(&self) -> (r: &'static str)
        ensures
            r@ == self.spec_message(),
    {
        match self {
            ConfigError::MtuNotInteger => "Can't convert MTU to an integer",
            ConfigError::SpeedNotInteger => "Can't convert link speed to an integer",
            ConfigError::InvalidLinkMode => "Invalid link mode",
            ConfigError::InvalidAddressType => "Invalid parameter for address assignment check",
            ConfigError::MissingInterface => "Interface to check is mandatory",
        }
    }
}

/// Operator expectations for one probe run; immutable once constructed.
/// An absent `expected_mtu` or `expected_speed` disables that check.
#[derive(Debug)]
pub struct Configuration {
    pub interface: String,
    pub expected_mtu: Option<i32>,
    pub expected_speed: Option<i32>,
    pub expected_duplex: Duplex,
    pub escalate_to_critical: bool,
    pub address_check: AddressCheck,
}

/// The mathematical content of a `Configuration`.
#[verifier::ext_equal]
pub struct ConfigView {
    pub interface: Seq<char>,
    pub expected_mtu: Option<int>,
    pub expected_speed: Option<int>,
    pub expected_duplex: Duplex,
    pub escalate_to_critical: bool,
    pub address_check: AddressCheck,
}

impl ConfigView {
    /// Well-formed expectations: the interface is named and thresholds,
    /// where given, are positive.
    pub open spec fn wf(self) -> bool {
        &&& self.interface.len() > 0
        &&& (self.expected_mtu matches Some(m) ==> m > 0)
        &&& (self.expected_speed matches Some(s) ==> s > 0)
    }
}

impl View for Configuration {
    type V = ConfigView;

    open spec fn view(&self) -> ConfigView {
        ConfigView {
            interface: self.interface@,
            expected_mtu: match self.expected_mtu {
                Some(v) => Some(v as int),
                None => None,
            },
            expected_speed: match self.expected_speed {
                Some(v) => Some(v as int),
                None => None,
            },
            expected_duplex: self.expected_duplex,
            escalate_to_critical: self.escalate_to_critical,
            address_check: self.address_check,
        }
    }
}

/// How often the character occurs in the sequence.
pub open spec fn spec_count_char(s: Seq<char>, c: char) -> nat
    decreases s.len(),
{
    if s.len() == 0 {
        0
    } else {
        spec_count_char(s.drop_last(), c) + (if s.last() == c {
            1nat
        } else {
            0nat
        })
    }
}

/// The index of the first occurrence of the character, or the length of the
/// sequence when it does not occur.
pub open spec fn spec_find_char(s: Seq<char>, c: char) -> int
    decreases s.len(),
{
    if s.len() == 0 {
        0
    } else if s[0] == c {
        0
    } else {
        1 + spec_find_char(s.drop_first(), c)
    }
}

proof fn lemma_find_char_at(s: Seq<char>, c: char, i: int)
    requires
        0 <= i <= s.len(),
        forall|k: int| 0 <= k < i ==> s[k] != c,
        i == s.len() || s[i] == c,
    ensures
        spec_find_char(s, c) == i,
    decreases i,
{
    if i == 0 {
    } else {
        lemma_find_char_at(s.drop_first(), c, i - 1);
    }
}

proof fn lemma_count_char_zero(s: Seq<char>, c: char)
    requires
        forall|k: int| 0 <= k < s.len() ==> s[k] != c,
    ensures
        spec_count_char(s, c) == 0,
    decreases s.len(),
{
    if s.len() > 0 {
        lemma_count_char_zero(s.drop_last(), c);
    }
}

/// Counts the occurrences of a character and finds its first position.
fn scan_char(s: &str, c: char) -> (r: (usize, usize))
    ensures
        r.0 == spec_count_char(s@, c),
        r.1 == spec_find_char(s@, c),
        r.0 > 0 ==> r.1 < s@.len(),
{
    let n: usize = s.unicode_len();
    let mut cnt: usize = 0;
    let mut first: usize = n;
    let mut j: usize = 0;
    while j < n
        invariant
            0 <= j <= n,
            n == s@.len(),
            cnt <= j,
            cnt == spec_count_char(s@.take(j as int), c),
            first <= n,
            first == n ==> forall|k: int| 0 <= k < j ==> s@[k] != c,
            first < n ==> first < j && s@[first as int] == c && forall|k: int|
                0 <= k < first ==> s@[k] != c,
        decreases n - j,
    {
        let ch = s.get_char(j);
        proof {
            assert(s@.take(j + 1).drop_last() =~= s@.take(j as int));
            assert(s@.take(j + 1).last() == s@[j as int]);
        }
        if ch == c {
            if first == n {
                first = j;
            }
            cnt += 1;
        }
        j += 1;
    }
    proof {
        assert(s@.take(n as int) =~= s@);
        if first == n {
            lemma_find_char_at(s@, c, n as int);
            lemma_count_char_zero(s@, c);
        } else {
            lemma_find_char_at(s@, c, first as int);
        }
    }
    (cnt, first)
}

/// The expected speed and duplex a `speed[:mode]` argument denotes.
/// Two or more separators, an unparseable speed, or a mode other than
/// `half` or `full` denote nothing; an empty speed part before a separator
/// leaves the default of 1000 MBit/s; a missing mode leaves `full`.
pub open spec fn spec_speed_duplex(s: Seq<char>) -> Result<(int, Duplex), ConfigError> {
    let cnt = spec_count_char(s, ':');
    if cnt >= 2 {
        Err(ConfigError::InvalidLinkMode)
    } else if cnt == 0 {
        match spec_parse_i32(s) {
            Some(v) => Ok((v, Duplex::Full)),
            None => Err(ConfigError::SpeedNotInteger),
        }
    } else {
        let fc = spec_find_char(s, ':');
        let p0 = s.subrange(0, fc);
        let p1 = s.subrange(fc + 1, s.len() as int);
        let sp = if p0.len() == 0 {
            Some(1000int)
        } else {
            spec_parse_i32(p0)
        };
        match sp {
            None => Err(ConfigError::SpeedNotInteger),
            Some(v) => if p1 == "half"@ {
                Ok((v, Duplex::Half))
            } else if p1 == "full"@ {
                Ok((v, Duplex::Full))
            } else {
                Err(ConfigError::InvalidLinkMode)
            },
        }
    }
}

/// Interprets a `speed[:mode]` argument, as `spec_speed_duplex` describes.
pub fn parse_speed_duplex(s: &str) -> (r: Result<(i32, Duplex), ConfigError>)
    ensures
        (match r {
            Ok(p) => spec_speed_duplex(s@) == Ok::<(int, Duplex), ConfigError>((p.0 as int, p.1)),
            Err(e) => spec_speed_duplex(s@) == Err::<(int, Duplex), ConfigError>(e),
        }),
{
    let n: usize = s.unicode_len();
    let (cnt, fc) = scan_char(s, ':');
    if cnt >= 2 {
        return Err(ConfigError::InvalidLinkMode);
    }
    if cnt == 0 {
        match parse_i32(s) {
            Some(v) => Ok((v, Duplex::Full)),
            None => Err(ConfigError::SpeedNotInteger),
        }
    } else {
        let p0 = s.substring_char(0, fc);
        let p1 = s.substring_char(fc + 1, n);
        let sp: i32 = if fc == 0 {
            1000
        } else {
            match parse_i32(p0) {
                Some(v) => v,
                None => {
                    return Err(ConfigError::SpeedNotInteger);
                },
            }
        };
        if str_eq(p1, "half") {
            Ok((sp, Duplex::Half))
        } else if str_eq(p1, "full") {
            Ok((sp, Duplex::Full))
        } else {
            Err(ConfigError::InvalidLinkMode)
        }
    }
}

/// The configuration the raw option values denote, or the first error the
/// probe reports for them: an unparseable expected MTU, then a bad
/// `speed[:mode]` argument, then a bad address-check class, then a missing
/// interface name. A parsed expected MTU or speed of zero or below
/// disables that check.
pub open spec fn spec_config(
    interface: Option<Seq<char>>,
    mtu: Option<Seq<char>>,
    state: Option<Seq<char>>,
    report_critical: bool,
    address_assigned: Option<Seq<char>>,
) -> Result<ConfigView, ConfigError> {
    let iface = match interface {
        Some(s) => s,
        None => Seq::<char>::empty(),
    };
    let mtu_v = match mtu {
        Some(s) => spec_parse_i32(s),
        None => Some(-1int),
    };
    match mtu_v {
        None => Err(ConfigError::MtuNotInteger),
        Some(m) => {
            let sd = match state {
                Some(s) => spec_speed_duplex(s),
                None => Ok((1000int, Duplex::Full)),
            };
            match sd {
                Err(e) => Err(e),
                Ok((sp, dp)) => {
                    let ac = match address_assigned {
                        Some(a) => if a == "ip"@ {
                            Ok(AddressCheck::Both)
                        } else if a == "ipv4"@ {
                            Ok(AddressCheck::Ipv4)
                        } else if a == "ipv6"@ {
                            Ok(AddressCheck::Ipv6)
                        } else if a.len() == 0 {
                            Ok(AddressCheck::Disabled)
                        } else {
                            Err(ConfigError::InvalidAddressType)
                        },
                        None => Ok(AddressCheck::Disabled),
                    };
                    match ac {
                        Err(e) => Err(e),
                        Ok(a) => if iface.len() == 0 {
                            Err(ConfigError::MissingInterface)
                        } else {
                            Ok(
                                ConfigView {
                                    interface: iface,
                                    expected_mtu: if m > 0 {
                                        Some(m)
                                    } else {
                                        None
                                    },
                                    expected_speed: if sp > 0 {
                                        Some(sp)
                                    } else {
                                        None
                                    },
                                    expected_duplex: dp,
                                    escalate_to_critical: report_critical,
                                    address_check: a,
                                },
                            )
                        },
                    }
                },
            }
        },
    }
}

impl Configuration {
    /// Builds the expectation model from the raw command-line option
    /// values, exactly as `spec_config` describes.
    pub fn new(
        interface: Option<String>,
        mtu: Option<String>,
        state: Option<String>,
        report_critical: bool,
        address_assigned: Option<String>,
    ) -> (r: Result<Configuration, ConfigError>)
        ensures
            (match r {
                Ok(c) => spec_config(
                    interface.deep_view(),
                    mtu.deep_view(),
                    state.deep_view(),
                    report_critical,
                    address_assigned.deep_view(),
                ) == Ok::<ConfigView, ConfigError>(c@) && c@.wf(),
                Err(e) => spec_config(
                    interface.deep_view(),
                    mtu.deep_view(),
                    state.deep_view(),
                    report_critical,
                    address_assigned.deep_view(),
                ) == Err::<ConfigView, ConfigError>(e),
            }),
    {
        let iface: String = match interface {
            Some(s) => s,
            None => String::new(),
        };
        let m: i32 = match mtu {
            Some(ms) => match parse_i32(ms.as_str()) {
                Some(v) => v,
                None => {
                    return Err(ConfigError::MtuNotInteger);
                },
            },
            None => -1,
        };
        let sd: (i32, Duplex) = match state {
            Some(ss) => match parse_speed_duplex(ss.as_str()) {
                Ok(p) => p,
                Err(e) => {
                    return Err(e);
                },
            },
            None => (1000, Duplex::Full),
        };
        let ac: AddressCheck = match address_assigned {
            Some(a) => {
                if str_eq(a.as_str(), "ip") {
                    AddressCheck::Both
                } else if str_eq(a.as_str(), "ipv4") {
                    AddressCheck::Ipv4
                } else if str_eq(a.as_str(), "ipv6") {
                    AddressCheck::Ipv6
                } else if a.as_str().is_empty() {
                    AddressCheck::Disabled
                } else {
                    return Err(ConfigError::InvalidAddressType);
                }
            },
            None => AddressCheck::Disabled,
        };
        if iface.as_str().is_empty() {
            return Err(ConfigError::MissingInterface);
        }
        let c = Configuration {
            interface: iface,
            expected_mtu: if m > 0 {
                Some(m)
            } else {
                None
            },
            expected_speed: if sd.0 > 0 {
                Some(sd.0)
            } else {
                None
            },
            expected_duplex: sd.1,
            escalate_to_critical: report_critical,
            address_check: ac,
        };
        Ok(c)
    }
}

} // verus!
