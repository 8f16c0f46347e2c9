//! Board detection and selection logic.
//!
//! The caller lists the HID devices that are present; which board they make
//! up is decided here. Descriptors are tried in a fixed order, the more
//! specific first, and the first descriptor that any device matches wins.

use crate::board::{BoardError, BoardInfo, Capabilities};
use crate::features::Board;
use crate::text::{has_prefix, lowercase_of, str_eq, strip_prefix, to_lowercase};
use crate::tiga::dyna::ZoomTklDyna;
use crate::zoom65v3::board::Zoom65v3;
use vstd::prelude::*;
use vstd::string::StringExecFns;

verus! {

/// The USB identity of a HID device that is present.
#[derive(Clone, Copy, Debug, PartialEq, Eq, Structural)]
pub struct DeviceIdentity {
    pub vendor_id: u16,
    pub product_id: u16,
    pub usage_page: u16,
    pub usage: u16,
}

/// Supported board types
#[derive(Clone, Copy, Debug, Default, PartialEq, Eq, Structural)]
pub enum BoardKind {
    /// Auto-detect connected board (default)
    #[default]
    Auto,
    /// Zoom65 V3
    Zoom65v3,
    /// Zoom TKL Dyna
    ZoomTklDyna,
}

/// A field of a descriptor matches where it is left open or equals the
/// device's value.
pub open spec fn field_matches(wanted: Option<u16>, found: u16) -> bool {
    wanted is None || wanted == Some(found)
}

/// A device matches a descriptor where each of the four fields matches.
pub open spec fn device_matches(device: DeviceIdentity, info: BoardInfo) -> bool {
    &&& field_matches(info.vendor_id, device.vendor_id)
    &&& field_matches(info.product_id, device.product_id)
    &&& field_matches(info.usage_page, device.usage_page)
    &&& field_matches(info.usage, device.usage)
}

/// Some device of the list matches the descriptor.
pub open spec fn any_matches(devices: Seq<DeviceIdentity>, info: BoardInfo) -> bool {
    exists|i: int| 0 <= i < devices.len() && device_matches(#[trigger] devices[i], info)
}

/// `i` is the place of the first device of the list that matches the
/// descriptor.
pub open spec fn is_first_match(devices: Seq<DeviceIdentity>, info: BoardInfo, i: int) -> bool {
    &&& 0 <= i < devices.len()
    &&& device_matches(devices[i], info)
    &&& forall|j: int| 0 <= j < i ==> !device_matches(#[trigger] devices[j], info)
}

fn check_field(wanted: Option<u16>, found: u16) -> (ok: bool)
    ensures
        ok == field_matches(wanted, found),
{
    match wanted {
        None => true,
        Some(value) => value == found,
    }
}

/// Check if a HID device matches the board info
pub fn matches(device: &DeviceIdentity, info: &BoardInfo) -> (ok: bool)
    ensures
        ok == device_matches(*device, *info),
{
    check_field(info.vendor_id, device.vendor_id) && check_field(
        info.product_id,
        device.product_id,
    ) && check_field(info.usage_page, device.usage_page) && check_field(info.usage, device.usage)
}

/// Find the first device that matches a descriptor.
pub fn first_match(devices: &[DeviceIdentity], info: &BoardInfo) -> (found: Option<usize>)
    ensures
        found is Some <==> any_matches(devices@, *info),
        found matches Some(i) ==> is_first_match(devices@, *info, i as int),
{
    let mut i: usize = 0;
    while i < devices.len()
        invariant
            i <= devices.len(),
            forall|j: int| 0 <= j < i ==> !device_matches(#[trigger] devices@[j], *info),
        decreases devices.len() - i,
    {
        if matches(&devices[i], info) {
            return Some(i);
        }
        i = i + 1;
    }
    None
}

/// The descriptors of all known boards, in the order in which detection
/// tries them.
pub open spec fn known_boards() -> Seq<BoardInfo> {
    seq![crate::zoom65v3::board::descriptor(), crate::tiga::dyna::descriptor()]
}

/// All known board infos, in the order in which detection tries them
pub fn all_boards() -> (list: Vec<BoardInfo>)
    ensures
        list@ == known_boards(),
{
    let mut list: Vec<BoardInfo> = Vec::new();
    list.push(crate::zoom65v3::board::info());
    list.push(crate::tiga::dyna::info());
    assert(list@ =~= known_boards());
    list
}

impl BoardKind {
    /// The descriptor of a board type; `Auto` has none.
    pub open spec fn descriptor(self) -> Option<BoardInfo> {
        match self {
            BoardKind::Auto => None,
            BoardKind::Zoom65v3 => Some(crate::zoom65v3::board::descriptor()),
            BoardKind::ZoomTklDyna => Some(crate::tiga::dyna::descriptor()),
        }
    }

    /// The board type that a list of devices makes up: Zoom65 V3 if some
    /// device matches its descriptor, else Zoom TKL Dyna if some device
    /// matches that one, else none.
    pub open spec fn detected(devices: Seq<DeviceIdentity>) -> Option<BoardKind> {
        if any_matches(devices, crate::zoom65v3::board::descriptor()) {
            Some(BoardKind::Zoom65v3)
        } else if any_matches(devices, crate::tiga::dyna::descriptor()) {
            Some(BoardKind::ZoomTklDyna)
        } else {
            None
        }
    }

    /// The board type that is meant: the type itself, or for `Auto` the one
    /// that the devices make up.
    pub open spec fn resolved(self, devices: Seq<DeviceIdentity>) -> Option<BoardKind> {
        match self {
            BoardKind::Auto => Self::detected(devices),
            _ => if any_matches(devices, self.descriptor()->0) {
                Some(self)
            } else {
                None
            },
        }
    }

    /// The capabilities to offer for a board type. For `Auto` they are those
    /// of the detected board, or all of them while none is detected.
    pub open spec fn offered(self, devices: Seq<DeviceIdentity>) -> Capabilities {
        match self {
            BoardKind::Auto => match Self::detected(devices) {
                Some(kind) => kind.descriptor()->0.capabilities,
                None => Capabilities::full(),
            },
            _ => self.descriptor()->0.capabilities,
        }
    }

    /// The name of a board type on the command line.
    pub open spec fn cli_name(self) -> Seq<char> {
        match self {
            BoardKind::Auto => "auto"@,
            BoardKind::Zoom65v3 => "zoom65v3"@,
            BoardKind::ZoomTklDyna => "zoom-tkl-dyna"@,
        }
    }

    /// The board type that a lowercase name stands for.
    pub open spec fn named(id: Seq<char>) -> Option<BoardKind> {
        if id == "auto"@ {
            Some(BoardKind::Auto)
        } else if id == "zoom65v3"@ {
            Some(BoardKind::Zoom65v3)
        } else if id == "zoom-tkl-dyna"@ || id == "zoomtkldyna"@ {
            Some(BoardKind::ZoomTklDyna)
        } else {
            None
        }
    }

    /// What is said of a name that stands for no board type.
    pub open spec fn unknown(name: Seq<char>) -> Seq<char> {
        "unknown board: "@ + name + ". Available: auto, zoom65v3, zoom-tkl-dyna"@
    }

    /// Get the static board info without connecting
    pub fn info(&self) -> (info: Option<BoardInfo>)
        ensures
            info == self.descriptor(),
    {
        match self {
            BoardKind::Auto => None,
            BoardKind::Zoom65v3 => Some(crate::zoom65v3::board::info()),
            BoardKind::ZoomTklDyna => Some(crate::tiga::dyna::info()),
        }
    }

    /// Detect which board is connected without opening it
    pub fn detect(devices: &[DeviceIdentity]) -> (kind: Option<BoardKind>)
        ensures
            kind == Self::detected(devices@),
            kind != Some(BoardKind::Auto),
    {
        if first_match(devices, &crate::zoom65v3::board::info()).is_some() {
            Some(BoardKind::Zoom65v3)
        } else if first_match(devices, &crate::tiga::dyna::info()).is_some() {
            Some(BoardKind::ZoomTklDyna)
        } else {
            None
        }
    }

    /// The board type to open, where a device for it is present.
    pub fn resolve(&self, devices: &[DeviceIdentity]) -> (kind: Option<BoardKind>)
        ensures
            kind == self.resolved(devices@),
            kind != Some(BoardKind::Auto),
    {
        match self.info() {
            None => Self::detect(devices),
            Some(info) => {
                if first_match(devices, &info).is_some() {
                    Some(*self)
                } else {
                    None
                }
            },
        }
    }

    /// The place in the list of the device to open for this board type.
    pub fn find_device(&self, devices: &[DeviceIdentity]) -> (place: Option<usize>)
        ensures
            place is Some <==> self.resolved(devices@) is Some,
            place matches Some(i) ==> is_first_match(
                devices@,
                self.resolved(devices@)->0.descriptor()->0,
                i as int,
            ),
    {
        match self.resolve(devices) {
            None => None,
            Some(kind) => match kind.info() {
                Some(info) => first_match(devices, &info),
                None => None,
            },
        }
    }

    /// Get capabilities for this board kind.
    /// For Auto, the connected board is detected first.
    pub fn capabilities(&self, devices: &[DeviceIdentity]) -> (caps: Capabilities)
        ensures
            caps == self.offered(devices@),
    {
        match self.info() {
            Some(info) => info.capabilities,
            None => match Self::detect(devices) {
                Some(kind) => match kind.info() {
                    Some(info) => info.capabilities,
                    None => Capabilities::all(),
                },
                // Union of all board capabilities when no board detected
                None => Capabilities::all(),
            },
        }
    }

    /// Pick the board to open: the specified one, or the detected one if
    /// Auto. Without a matching device there is no board.
    pub fn as_board(&self, devices: &[DeviceIdentity]) -> (outcome: Result<
        Box<dyn Board>,
        BoardError,
    >)
        ensures
            outcome is Ok <==> self.resolved(devices@) is Some,
            outcome matches Ok(board) ==> Some(board.descriptor()) == self.resolved(
                devices@,
            )->0.descriptor(),
            outcome matches Err(e) ==> e == BoardError::DeviceNotFound,
    {
        match self.resolve(devices) {
            Some(BoardKind::Zoom65v3) => Ok(Box::new(Zoom65v3)),
            Some(BoardKind::ZoomTklDyna) => Ok(Box::new(ZoomTklDyna)),
            _ => Err(BoardError::DeviceNotFound),
        }
    }

    /// List all supported board CLI names
    pub fn supported_boards() -> (names: Vec<&'static str>)
        ensures
            names@.len() == 3,
            names@[0]@ == BoardKind::Auto.cli_name(),
            names@[1]@ == BoardKind::Zoom65v3.cli_name(),
            names@[2]@ == BoardKind::ZoomTklDyna.cli_name(),
    {
        let mut names: Vec<&'static str> = Vec::new();
        names.push("auto");
        names.push("zoom65v3");
        names.push("zoom-tkl-dyna");
        names
    }

    /// The name of this board type on the command line.
    pub fn as_str(&self) -> (name: &'static str)
        ensures
            name@ == self.cli_name(),
    {
        match self {
            BoardKind::Auto => "auto",
            BoardKind::Zoom65v3 => "zoom65v3",
            BoardKind::ZoomTklDyna => "zoom-tkl-dyna",
        }
    }

    /// Look up the board type that a lowercase name stands for.
    pub fn from_id(id: &str) -> (kind: Option<Self>)
        ensures
            kind == Self::named(id@),
    {
        if str_eq(id, "auto") {
            Some(BoardKind::Auto)
        } else if str_eq(id, "zoom65v3") {
            Some(BoardKind::Zoom65v3)
        } else if str_eq(id, "zoom-tkl-dyna") || str_eq(id, "zoomtkldyna") {
            Some(BoardKind::ZoomTklDyna)
        } else {
            None
        }
    }

    /// Read a board type from its name, in any mix of upper and lower case.
    pub fn parse(s: &str) -> (outcome: Result<Self, String>)
        ensures
            outcome is Ok <==> Self::named(lowercase_of(s@)) is Some,
            outcome matches Ok(kind) ==> Self::named(lowercase_of(s@)) == Some(kind),
            outcome matches Err(why) ==> why@ == Self::unknown(s@),
    {
        let lowered = to_lowercase(s);
        match Self::from_id(lowered.as_str()) {
            Some(kind) => Ok(kind),
            None => Err(
                String::from_str("unknown board: ").concat(s).concat(
                    ". Available: auto, zoom65v3, zoom-tkl-dyna",
                ),
            ),
        }
    }
}

/// The option that names the board, written apart from its value.
pub const BOARD_FLAG: &'static str = "--board";

/// The short form of the option that names the board.
pub const BOARD_FLAG_SHORT: &'static str = "-b";

/// The option that names the board, written together with its value.
pub const BOARD_FLAG_PREFIX: &'static str = "--board=";

/// The board type that the argument at place `i` names: either the
/// argument is the board option and the next argument is a board's name, or
/// the argument is the board option with a board's name attached.
pub open spec fn board_named_at(args: Seq<String>, i: int) -> Option<BoardKind> {
    if args[i]@ == BOARD_FLAG_SHORT@ || args[i]@ == BOARD_FLAG@ {
        if i + 1 < args.len() {
            BoardKind::named(lowercase_of(args[i + 1]@))
        } else {
            None
        }
    } else if has_prefix(args[i]@, BOARD_FLAG_PREFIX@) {
        BoardKind::named(lowercase_of(args[i]@.skip(BOARD_FLAG_PREFIX@.len() as int)))
    } else {
        None
    }
}

/// The board type that the arguments from place `from` on name first;
/// `Auto` if they name none.
pub open spec fn board_named(args: Seq<String>, from: int) -> BoardKind
    decreases args.len() - from,
{
    if from < 0 || from >= args.len() {
        BoardKind::Auto
    } else {
        match board_named_at(args, from) {
            Some(kind) => kind,
            None => board_named(args, from + 1),
        }
    }
}

/// Pre-parse board kind from args before full parsing
pub fn pre_parse_board(args: &[String]) -> (kind: BoardKind)
    ensures
        kind == board_named(args@, 0),
{
    let mut i: usize = 0;
    while i < args.len()
        invariant
            i <= args.len(),
            board_named(args@, 0) == board_named(args@, i as int),
        decreases args.len() - i,
    {
        let arg = args[i].as_str();
        if str_eq(arg, BOARD_FLAG_SHORT) || str_eq(arg, BOARD_FLAG) {
            if i + 1 < args.len() {
                if let Ok(kind) = BoardKind::parse(args[i + 1].as_str()) {
                    return kind;
                }
            }
        } else if let Some(name) = strip_prefix(arg, BOARD_FLAG_PREFIX) {
            if let Ok(kind) = BoardKind::parse(name) {
                return kind;
            }
        }
        i = i + 1;
    }
    BoardKind::Auto
}

impl core::str::FromStr for BoardKind {
    type Err = String;

    /// Read a board type from its name, in any mix of upper and lower case:
    /// the board type that the lowered name stands for, or what is said of a
    /// name that stands for none.
    fn from_str(s: &str) -> (outcome: Result<Self, String>)
        ensures
            outcome is Ok <==> BoardKind::named(lowercase_of(s@)) is Some,
            outcome matches Ok(kind) ==> BoardKind::named(lowercase_of(s@)) == Some(kind),
            outcome matches Err(why) ==> why@ == BoardKind::unknown(s@),
    {
        BoardKind::parse(s)
    }
}

} // verus!
