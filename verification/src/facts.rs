//! Observed interface facts: a single point-in-time snapshot of one
//! interface, built from the raw attribute texts the host exposes.

use vstd::prelude::*;
use crate::text::{spec_parse_i32, spec_trim, parse_i32, trim};

verus! {

/// An address assigned to the interface, held as its raw bits.
#[derive(Clone, Copy, PartialEq, Eq, Structural, Debug)]
pub enum Address {
    V4(u32),
    V6(u128),
}

impl Address {
    /// A link-local address: within `169.254.0.0/16` for IPv4, within
    /// `fe80::/10` for IPv6.
    pub open spec fn spec_is_link_local(self) -> bool {
        match self {
            Address::V4(a) => a >> 16 == 0xa9fe,
            Address::V6(a) => a >> 118 == 0x3fa,
        }
    }

    /// Whether the address is link-local.
    pub fn is_link_local(&self) -> (r: bool)
        ensures
            r == self.spec_is_link_local(),
    {
        match self {
            Address::V4(a) => *a >> 16 == 0xa9fe,
            Address::V6(a) => *a >> 118 == 0x3fa,
        }
    }

    /// An IPv4 address from its four octets, highest first.
    pub fn v4_from_octets(o0: u8, o1: u8, o2: u8, o3: u8) -> (r: Address)
        ensures
            r == Address::V4(
                ((o0 as u32) << 24) | ((o1 as u32) << 16) | ((o2 as u32) << 8) | (o3 as u32),
            ),
    {
        Address::V4(((o0 as u32) << 24) | ((o1 as u32) << 16) | ((o2 as u32) << 8) | (o3 as u32))
    }

    /// An IPv6 address from its eight 16-bit segments, highest first.
    pub fn v6_from_segments(s: [u16; 8]) -> (r: Address)
        ensures
            r == Address::V6(
                ((s[0] as u128) << 112) | ((s[1] as u128) << 96) | ((s[2] as u128) << 80) | ((
                s[3] as u128) << 64) | ((s[4] as u128) << 48) | ((s[5] as u128) << 32) | ((
                s[6] as u128) << 16) | (s[7] as u128),
            ),
    {
        let r: u128 = ((s[0] as u128) << 112) | ((s[1] as u128) << 96) | ((s[2] as u128) << 80)
            | ((s[3] as u128) << 64) | ((s[4] as u128) << 48) | ((s[5] as u128) << 32) | ((
        s[6] as u128) << 16) | (s[7] as u128);
        Address::V6(r)
    }
}

/// A fact read could not be turned into a number.
#[derive(Clone, Copy, PartialEq, Eq, Structural, Debug)]
pub enum FactsError {
    MtuNotInteger,
    SpeedNotInteger,
}

impl FactsError {
    /// The single-line description of the error.
    pub open spec fn spec_message(self) -> Seq<char> {
        match self {
            FactsError::MtuNotInteger => "Can't convert reported MTU to an integer"@,
            FactsError::SpeedNotInteger => "Can't convert reported link speed to an integer"@,
        }
    }

    /// Renders the error as its single-line description.
    pub fn message(&self) -> (r: &'static str)
        ensures
            r@ == self.spec_message(),
    {
        match self {
            FactsError::MtuNotInteger => "Can't convert reported MTU to an integer",
            FactsError::SpeedNotInteger => "Can't convert reported link speed to an integer",
        }
    }
}

/// The observed state of one interface; immutable once constructed.
/// A speed or MTU of -1 stands for a value that could not be read.
#[derive(Debug)]
pub struct InterfaceState {
    pub present: bool,
    pub speed: i32,
    pub mtu: i32,
    pub operstate: String,
    pub duplex: String,
    pub ips: Vec<Address>,
}

/// The mathematical content of an `InterfaceState`.
#[verifier::ext_equal]
pub struct FactsView {
    pub present: bool,
    pub speed: int,
    pub mtu: int,
    pub operstate: Seq<char>,
    pub duplex: Seq<char>,
    pub ips: Seq<Address>,
}

impl View for InterfaceState {
    type V = FactsView;

    open spec fn view(&self) -> FactsView {
        FactsView {
            present: self.present,
            speed: self.speed as int,
            mtu: self.mtu as int,
            operstate: self.operstate@,
            duplex: self.duplex@,
            ips: self.ips@,
        }
    }
}

/// The facts the raw attribute texts denote. An unreadable attribute
/// (`None`) makes the interface "not present", with every attribute read
/// so far kept and the rest left at its placeholder; a readable MTU or
/// speed that is not an integer is a fatal format error. Attribute values
/// are trimmed of surrounding whitespace.
pub open spec fn spec_facts(
    operstate: Option<Seq<char>>,
    duplex: Option<Seq<char>>,
    mtu: Option<Seq<char>>,
    speed: Option<Seq<char>>,
    ips: Seq<Address>,
) -> Result<FactsView, FactsError> {
    let placeholder = "unknown"@;
    match operstate {
        None => Ok(
            FactsView {
                present: false,
                speed: -1,
                mtu: -1,
                operstate: placeholder,
                duplex: placeholder,
                ips: ips,
            },
        ),
        Some(os) => match duplex {
            None => Ok(
                FactsView {
                    present: false,
                    speed: -1,
                    mtu: -1,
                    operstate: spec_trim(os),
                    duplex: placeholder,
                    ips: ips,
                },
            ),
            Some(dx) => match mtu {
                None => Ok(
                    FactsView {
                        present: false,
                        speed: -1,
                        mtu: -1,
                        operstate: spec_trim(os),
                        duplex: spec_trim(dx),
                        ips: ips,
                    },
                ),
                Some(mt) => match spec_parse_i32(spec_trim(mt)) {
                    None => Err(FactsError::MtuNotInteger),
                    Some(m) => match speed {
                        None => Ok(
                            FactsView {
                                present: false,
                                speed: -1,
                                mtu: m,
                                operstate: spec_trim(os),
                                duplex: spec_trim(dx),
                                ips: ips,
                            },
                        ),
                        Some(sp) => match spec_parse_i32(spec_trim(sp)) {
                            None => Err(FactsError::SpeedNotInteger),
                            Some(v) => Ok(
                                FactsView {
                                    present: true,
                                    speed: v,
                                    mtu: m,
                                    operstate: spec_trim(os),
                                    duplex: spec_trim(dx),
                                    ips: ips,
                                },
                            ),
                        },
                    },
                },
            },
        },
    }
}

impl InterfaceState {
    /// Builds the fact snapshot from the raw attribute texts, exactly as
    /// `spec_facts` describes.
    pub fn new(
        operstate: Option<String>,
        duplex: Option<String>,
        mtu: Option<String>,
        speed: Option<String>,
        ips: Vec<Address>,
    ) -> (r: Result<InterfaceState, FactsError>)
        ensures
            (match r {
                Ok(f) => spec_facts(
                    operstate.deep_view(),
                    duplex.deep_view(),
                    mtu.deep_view(),
                    speed.deep_view(),
                    ips@,
                ) == Ok::<FactsView, FactsError>(f@),
                Err(e) => spec_facts(
                    operstate.deep_view(),
                    duplex.deep_view(),
                    mtu.deep_view(),
                    speed.deep_view(),
                    ips@,
                ) == Err::<FactsView, FactsError>(e),
            }),
    {
        let os: String = match operstate {
            Some(s) => trim(s.as_str()),
            None => {
                return Ok(
                    InterfaceState {
                        present: false,
                        speed: -1,
                        mtu: -1,
                        operstate: String::from_str("unknown"),
                        duplex: String::from_str("unknown"),
                        ips,
                    },
                );
            },
        };
        let dx: String = match duplex {
            Some(s) => trim(s.as_str()),
            None => {
                return Ok(
                    InterfaceState {
                        present: false,
                        speed: -1,
                        mtu: -1,
                        operstate: os,
                        duplex: String::from_str("unknown"),
                        ips,
                    },
                );
            },
        };
        let m: i32 = match mtu {
            Some(s) => {
                let t = trim(s.as_str());
                match parse_i32(t.as_str()) {
                    Some(v) => v,
                    None => {
                        return Err(FactsError::MtuNotInteger);
                    },
                }
            },
            None => {
                return Ok(
                    InterfaceState {
                        present: false,
                        speed: -1,
                        mtu: -1,
                        operstate: os,
                        duplex: dx,
                        ips,
                    },
                );
            },
        };
        let v: i32 = match speed {
            Some(s) => {
                let t = trim(s.as_str());
                match parse_i32(t.as_str()) {
                    Some(v) => v,
                    None => {
                        return Err(FactsError::SpeedNotInteger);
                    },
                }
            },
            None => {
                return Ok(
                    InterfaceState {
                        present: false,
                        speed: -1,
                        mtu: m,
                        operstate: os,
                        duplex: dx,
                        ips,
                    },
                );
            },
        };
        Ok(InterfaceState { present: true, speed: v, mtu: m, operstate: os, duplex: dx, ips })
    }
}

} // verus!
