//! Input devices and seats.

use crate::decode::{
    failed, known, list, list_from_json, opt, opt_list, optional, optional_list, req, req_list,
    required, required_list, FromJson,
};
use crate::error::ShapeError;
use crate::json::{Binary64, Json, JsonValue};
use crate::scalar::{req_sentinel, required_sentinel, NonZeroU64};
use crate::text::str_eq;
use vstd::prelude::*;

verus! {

/// What kind of device an input is.
#[non_exhaustive]
#[derive(Clone, Copy, Debug, PartialEq, Eq, Hash, Structural)]
pub enum SwayInputType {
    Keyboard,
    Pointer,
    Touch,
    TabletTool,
    TabletPad,
    Switch,
    /// The window manager reports the device as of unknown kind. A kind that this
    /// library does not know is not decoded as this.
    Unknown,
}

impl DeepView for SwayInputType {
    type V = SwayInputType;

    open spec fn deep_view(&self) -> SwayInputType {
        *self
    }
}

impl SwayInputType {
    /// The kind of device that a name of the protocol stands for.
    pub open spec fn spec_from_name(name: Seq<char>) -> Option<SwayInputType> {
        if name == "keyboard"@ {
            Some(SwayInputType::Keyboard)
        } else if name == "pointer"@ {
            Some(SwayInputType::Pointer)
        } else if name == "touch"@ {
            Some(SwayInputType::Touch)
        } else if name == "tablet_tool"@ {
            Some(SwayInputType::TabletTool)
        } else if name == "tablet_pad"@ {
            Some(SwayInputType::TabletPad)
        } else if name == "switch"@ {
            Some(SwayInputType::Switch)
        } else if name == "unknown"@ {
            Some(SwayInputType::Unknown)
        } else {
            None
        }
    }

    pub fn from_name(name: &str) -> (r: Option<SwayInputType>)
        ensures
            r == SwayInputType::spec_from_name(name@),
    {
        if str_eq(name, "keyboard") {
            Some(SwayInputType::Keyboard)
        } else if str_eq(name, "pointer") {
            Some(SwayInputType::Pointer)
        } else if str_eq(name, "touch") {
            Some(SwayInputType::Touch)
        } else if str_eq(name, "tablet_tool") {
            Some(SwayInputType::TabletTool)
        } else if str_eq(name, "tablet_pad") {
            Some(SwayInputType::TabletPad)
        } else if str_eq(name, "switch") {
            Some(SwayInputType::Switch)
        } else if str_eq(name, "unknown") {
            Some(SwayInputType::Unknown)
        } else {
            None
        }
    }
}

impl FromJson for SwayInputType {
    open spec fn decoded(j: JsonValue) -> Result<SwayInputType, ShapeError> {
        match j.as_str() {
            Some(name) => known(SwayInputType::spec_from_name(name)),
            None => Err(ShapeError::TypeMismatch),
        }
    }

    fn from_json(j: &Json) -> (r: Result<SwayInputType, ShapeError>) {
        match j.as_str() {
            Some(name) => match SwayInputType::from_name(name) {
                Some(v) => Ok(v),
                None => Err(ShapeError::UnknownVariant),
            },
            None => Err(ShapeError::TypeMismatch),
        }
    }
}

/// Whether a device sends its events.
#[derive(Clone, Copy, Debug, PartialEq, Eq, Hash, Structural)]
pub enum LibInputSendEventsState {
    Enabled,
    Disabled,
    DisabledOnExternalMouse,
}

impl DeepView for LibInputSendEventsState {
    type V = LibInputSendEventsState;

    open spec fn deep_view(&self) -> LibInputSendEventsState {
        *self
    }
}

impl LibInputSendEventsState {
    /// The state that a name of the protocol stands for.
    pub open spec fn spec_from_name(name: Seq<char>) -> Option<LibInputSendEventsState> {
        if name == "enabled"@ {
            Some(LibInputSendEventsState::Enabled)
        } else if name == "disabled"@ {
            Some(LibInputSendEventsState::Disabled)
        } else if name == "disabled_on_external_mouse"@ {
            Some(LibInputSendEventsState::DisabledOnExternalMouse)
        } else {
            None
        }
    }

    pub fn from_name(name: &str) -> (r: Option<LibInputSendEventsState>)
        ensures
            r == LibInputSendEventsState::spec_from_name(name@),
    {
        if str_eq(name, "enabled") {
            Some(LibInputSendEventsState::Enabled)
        } else if str_eq(name, "disabled") {
            Some(LibInputSendEventsState::Disabled)
        } else if str_eq(name, "disabled_on_external_mouse") {
            Some(LibInputSendEventsState::DisabledOnExternalMouse)
        } else {
            None
        }
    }
}

impl FromJson for LibInputSendEventsState {
    open spec fn decoded(j: JsonValue) -> Result<LibInputSendEventsState, ShapeError> {
        match j.as_str() {
            Some(name) => known(LibInputSendEventsState::spec_from_name(name)),
            None => Err(ShapeError::TypeMismatch),
        }
    }

    fn from_json(j: &Json) -> (r: Result<LibInputSendEventsState, ShapeError>) {
        match j.as_str() {
            Some(name) => match LibInputSendEventsState::from_name(name) {
                Some(v) => Ok(v),
                None => Err(ShapeError::UnknownVariant),
            },
            None => Err(ShapeError::TypeMismatch),
        }
    }
}

/// A setting that is on or off.
#[derive(Clone, Copy, Debug, PartialEq, Eq, Hash, Structural)]
pub enum EnabledState {
    Enabled,
    Disabled,
}

impl DeepView for EnabledState {
    type V = EnabledState;

    open spec fn deep_view(&self) -> EnabledState {
        *self
    }
}

impl EnabledState {
    /// The state that a name of the protocol stands for.
    pub open spec fn spec_from_name(name: Seq<char>) -> Option<EnabledState> {
        if name == "enabled"@ {
            Some(EnabledState::Enabled)
        } else if name == "disabled"@ {
            Some(EnabledState::Disabled)
        } else {
            None
        }
    }

    pub fn from_name(name: &str) -> (r: Option<EnabledState>)
        ensures
            r == EnabledState::spec_from_name(name@),
    {
        if str_eq(name, "enabled") {
            Some(EnabledState::Enabled)
        } else if str_eq(name, "disabled") {
            Some(EnabledState::Disabled)
        } else {
            None
        }
    }
}

impl FromJson for EnabledState {
    open spec fn decoded(j: JsonValue) -> Result<EnabledState, ShapeError> {
        match j.as_str() {
            Some(name) => known(EnabledState::spec_from_name(name)),
            None => Err(ShapeError::TypeMismatch),
        }
    }

    fn from_json(j: &Json) -> (r: Result<EnabledState, ShapeError>) {
        match j.as_str() {
            Some(name) => match EnabledState::from_name(name) {
                Some(v) => Ok(v),
                None => Err(ShapeError::UnknownVariant),
            },
            None => Err(ShapeError::TypeMismatch),
        }
    }
}

/// Which buttons the taps of one, two and three fingers stand for.
#[derive(Clone, Copy, Debug, PartialEq, Eq, Hash, Structural)]
pub enum ButtonMapping {
    /// Left, middle, right.
    Lmr,
    /// Left, right, middle.
    Lrm,
}

impl DeepView for ButtonMapping {
    type V = ButtonMapping;

    open spec fn deep_view(&self) -> ButtonMapping {
        *self
    }
}

impl ButtonMapping {
    /// The mapping that a name of the protocol stands for.
    pub open spec fn spec_from_name(name: Seq<char>) -> Option<ButtonMapping> {
        if name == "lmr"@ {
            Some(ButtonMapping::Lmr)
        } else if name == "lrm"@ {
            Some(ButtonMapping::Lrm)
        } else {
            None
        }
    }

    pub fn from_name(name: &str) -> (r: Option<ButtonMapping>)
        ensures
            r == ButtonMapping::spec_from_name(name@),
    {
        if str_eq(name, "lmr") {
            Some(ButtonMapping::Lmr)
        } else if str_eq(name, "lrm") {
            Some(ButtonMapping::Lrm)
        } else {
            None
        }
    }
}

impl FromJson for ButtonMapping {
    open spec fn decoded(j: JsonValue) -> Result<ButtonMapping, ShapeError> {
        match j.as_str() {
            Some(name) => known(ButtonMapping::spec_from_name(name)),
            None => Err(ShapeError::TypeMismatch),
        }
    }

    fn from_json(j: &Json) -> (r: Result<ButtonMapping, ShapeError>) {
        match j.as_str() {
            Some(name) => match ButtonMapping::from_name(name) {
                Some(v) => Ok(v),
                None => Err(ShapeError::UnknownVariant),
            },
            None => Err(ShapeError::TypeMismatch),
        }
    }
}

/// How the pointer is accelerated.
#[derive(Clone, Copy, Debug, PartialEq, Eq, Hash, Structural)]
pub enum LibInputAccelProfile {
    NoProfile,
    Flat,
    Adaptive,
}

impl DeepView for LibInputAccelProfile {
    type V = LibInputAccelProfile;

    open spec fn deep_view(&self) -> LibInputAccelProfile {
        *self
    }
}

impl LibInputAccelProfile {
    /// The profile that a name of the protocol stands for.
    pub open spec fn spec_from_name(name: Seq<char>) -> Option<LibInputAccelProfile> {
        if name == "none"@ {
            Some(LibInputAccelProfile::NoProfile)
        } else if name == "flat"@ {
            Some(LibInputAccelProfile::Flat)
        } else if name == "adaptive"@ {
            Some(LibInputAccelProfile::Adaptive)
        } else {
            None
        }
    }

    pub fn from_name(name: &str) -> (r: Option<LibInputAccelProfile>)
        ensures
            r == LibInputAccelProfile::spec_from_name(name@),
    {
        if str_eq(name, "none") {
            Some(LibInputAccelProfile::NoProfile)
        } else if str_eq(name, "flat") {
            Some(LibInputAccelProfile::Flat)
        } else if str_eq(name, "adaptive") {
            Some(LibInputAccelProfile::Adaptive)
        } else {
            None
        }
    }
}

impl FromJson for LibInputAccelProfile {
    open spec fn decoded(j: JsonValue) -> Result<LibInputAccelProfile, ShapeError> {
        match j.as_str() {
            Some(name) => known(LibInputAccelProfile::spec_from_name(name)),
            None => Err(ShapeError::TypeMismatch),
        }
    }

    fn from_json(j: &Json) -> (r: Result<LibInputAccelProfile, ShapeError>) {
        match j.as_str() {
            Some(name) => match LibInputAccelProfile::from_name(name) {
                Some(v) => Ok(v),
                None => Err(ShapeError::UnknownVariant),
            },
            None => Err(ShapeError::TypeMismatch),
        }
    }
}

/// How a touchpad without buttons tells a click.
#[derive(Clone, Copy, Debug, PartialEq, Eq, Hash, Structural)]
pub enum LibInputClickMethod {
    NoMethod,
    ButtonAreas,
    Clickfinger,
}

impl DeepView for LibInputClickMethod {
    type V = LibInputClickMethod;

    open spec fn deep_view(&self) -> LibInputClickMethod {
        *self
    }
}

impl LibInputClickMethod {
    /// The method that a name of the protocol stands for.
    pub open spec fn spec_from_name(name: Seq<char>) -> Option<LibInputClickMethod> {
        if name == "none"@ {
            Some(LibInputClickMethod::NoMethod)
        } else if name == "button_areas"@ {
            Some(LibInputClickMethod::ButtonAreas)
        } else if name == "clickfinger"@ {
            Some(LibInputClickMethod::Clickfinger)
        } else {
            None
        }
    }

    pub fn from_name(name: &str) -> (r: Option<LibInputClickMethod>)
        ensures
            r == LibInputClickMethod::spec_from_name(name@),
    {
        if str_eq(name, "none") {
            Some(LibInputClickMethod::NoMethod)
        } else if str_eq(name, "button_areas") {
            Some(LibInputClickMethod::ButtonAreas)
        } else if str_eq(name, "clickfinger") {
            Some(LibInputClickMethod::Clickfinger)
        } else {
            None
        }
    }
}

impl FromJson for LibInputClickMethod {
    open spec fn decoded(j: JsonValue) -> Result<LibInputClickMethod, ShapeError> {
        match j.as_str() {
            Some(name) => known(LibInputClickMethod::spec_from_name(name)),
            None => Err(ShapeError::TypeMismatch),
        }
    }

    fn from_json(j: &Json) -> (r: Result<LibInputClickMethod, ShapeError>) {
        match j.as_str() {
            Some(name) => match LibInputClickMethod::from_name(name) {
                Some(v) => Ok(v),
                None => Err(ShapeError::UnknownVariant),
            },
            None => Err(ShapeError::TypeMismatch),
        }
    }
}

/// How a device scrolls.
#[derive(Clone, Copy, Debug, PartialEq, Eq, Hash, Structural)]
pub enum LibInputScrollMethod {
    NoMethod,
    TwoFinger,
    Edge,
    OnButtonDown,
}

impl DeepView for LibInputScrollMethod {
    type V = LibInputScrollMethod;

    open spec fn deep_view(&self) -> LibInputScrollMethod {
        *self
    }
}

impl LibInputScrollMethod {
    /// The method that a name of the protocol stands for.
    pub open spec fn spec_from_name(name: Seq<char>) -> Option<LibInputScrollMethod> {
        if name == "none"@ {
            Some(LibInputScrollMethod::NoMethod)
        } else if name == "two_finger"@ {
            Some(LibInputScrollMethod::TwoFinger)
        } else if name == "edge"@ {
            Some(LibInputScrollMethod::Edge)
        } else if name == "on_button_down"@ {
            Some(LibInputScrollMethod::OnButtonDown)
        } else {
            None
        }
    }

    pub fn from_name(name: &str) -> (r: Option<LibInputScrollMethod>)
        ensures
            r == LibInputScrollMethod::spec_from_name(name@),
    {
        if str_eq(name, "none") {
            Some(LibInputScrollMethod::NoMethod)
        } else if str_eq(name, "two_finger") {
            Some(LibInputScrollMethod::TwoFinger)
        } else if str_eq(name, "edge") {
            Some(LibInputScrollMethod::Edge)
        } else if str_eq(name, "on_button_down") {
            Some(LibInputScrollMethod::OnButtonDown)
        } else {
            None
        }
    }
}

impl FromJson for LibInputScrollMethod {
    open spec fn decoded(j: JsonValue) -> Result<LibInputScrollMethod, ShapeError> {
        match j.as_str() {
            Some(name) => known(LibInputScrollMethod::spec_from_name(name)),
            None => Err(ShapeError::TypeMismatch),
        }
    }

    fn from_json(j: &Json) -> (r: Result<LibInputScrollMethod, ShapeError>) {
        match j.as_str() {
            Some(name) => match LibInputScrollMethod::from_name(name) {
                Some(v) => Ok(v),
                None => Err(ShapeError::UnknownVariant),
            },
            None => Err(ShapeError::TypeMismatch),
        }
    }
}

/// The six numbers of a calibration matrix: an array of exactly six.
impl FromJson for [Binary64; 6] {
    open spec fn decoded(j: JsonValue) -> Result<Seq<Binary64>, ShapeError> {
        match list::<Binary64>(j) {
            Ok(numbers) => if numbers.len() == 6 {
                Ok(numbers)
            } else {
                Err(ShapeError::TypeMismatch)
            },
            Err(e) => Err(e),
        }
    }

    fn from_json(j: &Json) -> (r: Result<[Binary64; 6], ShapeError>) {
        let numbers = list_from_json::<Binary64>(j)?;
        if numbers.len() != 6 {
            return Err(ShapeError::TypeMismatch);
        }
        let matrix = [numbers[0], numbers[1], numbers[2], numbers[3], numbers[4], numbers[5]];
        assert(matrix.deep_view() =~= numbers.deep_view());
        Ok(matrix)
    }
}

/// The settings of a device that libinput drives. Each is there only where the
/// device has the setting.
#[derive(Clone, Copy, Debug, PartialEq)]
pub struct SwayLibinputDevice {
    pub send_events: Option<LibInputSendEventsState>,
    pub tap: Option<EnabledState>,
    pub tap_button_map: Option<ButtonMapping>,
    pub tap_drag: Option<EnabledState>,
    pub tap_drag_lock: Option<EnabledState>,
    pub accel_speed: Option<Binary64>,
    pub accel_profile: Option<LibInputAccelProfile>,
    pub natural_scroll: Option<EnabledState>,
    pub left_handed: Option<EnabledState>,
    pub click_method: Option<LibInputClickMethod>,
    pub middle_emulation: Option<EnabledState>,
    pub scroll_method: Option<LibInputScrollMethod>,
    /// The event code of the button.
    pub scroll_button: Option<u64>,
    pub scroll_button_lock: Option<EnabledState>,
    /// The member `dwt`.
    pub disable_while_typing: Option<EnabledState>,
    /// The member `dwtp`.
    pub disable_while_trackpointing: Option<EnabledState>,
    pub calibration_matrix: Option<[Binary64; 6]>,
}

/// The mathematical model of [`SwayLibinputDevice`].
pub struct SwayLibinputDeviceView {
    pub send_events: Option<LibInputSendEventsState>,
    pub tap: Option<EnabledState>,
    pub tap_button_map: Option<ButtonMapping>,
    pub tap_drag: Option<EnabledState>,
    pub tap_drag_lock: Option<EnabledState>,
    pub accel_speed: Option<Binary64>,
    pub accel_profile: Option<LibInputAccelProfile>,
    pub natural_scroll: Option<EnabledState>,
    pub left_handed: Option<EnabledState>,
    pub click_method: Option<LibInputClickMethod>,
    pub middle_emulation: Option<EnabledState>,
    pub scroll_method: Option<LibInputScrollMethod>,
    pub scroll_button: Option<u64>,
    pub scroll_button_lock: Option<EnabledState>,
    pub disable_while_typing: Option<EnabledState>,
    pub disable_while_trackpointing: Option<EnabledState>,
    pub calibration_matrix: Option<Seq<Binary64>>,
}

impl DeepView for SwayLibinputDevice {
    type V = SwayLibinputDeviceView;

    open spec fn deep_view(&self) -> SwayLibinputDeviceView {
        SwayLibinputDeviceView {
            send_events: self.send_events,
            tap: self.tap,
            tap_button_map: self.tap_button_map,
            tap_drag: self.tap_drag,
            tap_drag_lock: self.tap_drag_lock,
            accel_speed: self.accel_speed,
            accel_profile: self.accel_profile,
            natural_scroll: self.natural_scroll,
            left_handed: self.left_handed,
            click_method: self.click_method,
            middle_emulation: self.middle_emulation,
            scroll_method: self.scroll_method,
            scroll_button: self.scroll_button,
            scroll_button_lock: self.scroll_button_lock,
            disable_while_typing: self.disable_while_typing,
            disable_while_trackpointing: self.disable_while_trackpointing,
            calibration_matrix: self.calibration_matrix.deep_view(),
        }
    }
}

impl FromJson for SwayLibinputDevice {
    open spec fn decoded(j: JsonValue) -> Result<SwayLibinputDeviceView, ShapeError> {
        let send_events = optional::<LibInputSendEventsState>(j, "send_events"@);
        let tap = optional::<EnabledState>(j, "tap"@);
        let tap_button_map = optional::<ButtonMapping>(j, "tap_button_map"@);
        let tap_drag = optional::<EnabledState>(j, "tap_drag"@);
        let tap_drag_lock = optional::<EnabledState>(j, "tap_drag_lock"@);
        let accel_speed = optional::<Binary64>(j, "accel_speed"@);
        let accel_profile = optional::<LibInputAccelProfile>(j, "accel_profile"@);
        let natural_scroll = optional::<EnabledState>(j, "natural_scroll"@);
        let left_handed = optional::<EnabledState>(j, "left_handed"@);
        let click_method = optional::<LibInputClickMethod>(j, "click_method"@);
        let middle_emulation = optional::<EnabledState>(j, "middle_emulation"@);
        let scroll_method = optional::<LibInputScrollMethod>(j, "scroll_method"@);
        let scroll_button = optional::<u64>(j, "scroll_button"@);
        let scroll_button_lock = optional::<EnabledState>(j, "scroll_button_lock"@);
        let disable_while_typing = optional::<EnabledState>(j, "dwt"@);
        let disable_while_trackpointing = optional::<EnabledState>(j, "dwtp"@);
        let calibration_matrix = optional::<[Binary64; 6]>(j, "calibration_matrix"@);
        if !(j is Object) {
            Err(ShapeError::TypeMismatch)
        } else if send_events is Err {
            failed(send_events)
        } else if tap is Err {
            failed(tap)
        } else if tap_button_map is Err {
            failed(tap_button_map)
        } else if tap_drag is Err {
            failed(tap_drag)
        } else if tap_drag_lock is Err {
            failed(tap_drag_lock)
        } else if accel_speed is Err {
            failed(accel_speed)
        } else if accel_profile is Err {
            failed(accel_profile)
        } else if natural_scroll is Err {
            failed(natural_scroll)
        } else if left_handed is Err {
            failed(left_handed)
        } else if click_method is Err {
            failed(click_method)
        } else if middle_emulation is Err {
            failed(middle_emulation)
        } else if scroll_method is Err {
            failed(scroll_method)
        } else if scroll_button is Err {
            failed(scroll_button)
        } else if scroll_button_lock is Err {
            failed(scroll_button_lock)
        } else if disable_while_typing is Err {
            failed(disable_while_typing)
        } else if disable_while_trackpointing is Err {
            failed(disable_while_trackpointing)
        } else if calibration_matrix is Err {
            failed(calibration_matrix)
        } else {
            Ok(
                SwayLibinputDeviceView {
                    send_events: send_events.unwrap(),
                    tap: tap.unwrap(),
                    tap_button_map: tap_button_map.unwrap(),
                    tap_drag: tap_drag.unwrap(),
                    tap_drag_lock: tap_drag_lock.unwrap(),
                    accel_speed: accel_speed.unwrap(),
                    accel_profile: accel_profile.unwrap(),
                    natural_scroll: natural_scroll.unwrap(),
                    left_handed: left_handed.unwrap(),
                    click_method: click_method.unwrap(),
                    middle_emulation: middle_emulation.unwrap(),
                    scroll_method: scroll_method.unwrap(),
                    scroll_button: scroll_button.unwrap(),
                    scroll_button_lock: scroll_button_lock.unwrap(),
                    disable_while_typing: disable_while_typing.unwrap(),
                    disable_while_trackpointing: disable_while_trackpointing.unwrap(),
                    calibration_matrix: calibration_matrix.unwrap(),
                },
            )
        }
    }

    fn from_json(j: &Json) -> (r: Result<SwayLibinputDevice, ShapeError>) {
        if !j.is_object() {
            return Err(ShapeError::TypeMismatch);
        }
        let send_events = opt::<LibInputSendEventsState>(j, "send_events")?;
        let tap = opt::<EnabledState>(j, "tap")?;
        let tap_button_map = opt::<ButtonMapping>(j, "tap_button_map")?;
        let tap_drag = opt::<EnabledState>(j, "tap_drag")?;
        let tap_drag_lock = opt::<EnabledState>(j, "tap_drag_lock")?;
        let accel_speed = opt::<Binary64>(j, "accel_speed")?;
        let accel_profile = opt::<LibInputAccelProfile>(j, "accel_profile")?;
        let natural_scroll = opt::<EnabledState>(j, "natural_scroll")?;
        let left_handed = opt::<EnabledState>(j, "left_handed")?;
        let click_method = opt::<LibInputClickMethod>(j, "click_method")?;
        let middle_emulation = opt::<EnabledState>(j, "middle_emulation")?;
        let scroll_method = opt::<LibInputScrollMethod>(j, "scroll_method")?;
        let scroll_button = opt::<u64>(j, "scroll_button")?;
        let scroll_button_lock = opt::<EnabledState>(j, "scroll_button_lock")?;
        let disable_while_typing = opt::<EnabledState>(j, "dwt")?;
        let disable_while_trackpointing = opt::<EnabledState>(j, "dwtp")?;
        let calibration_matrix = opt::<[Binary64; 6]>(j, "calibration_matrix")?;
        Ok(
            SwayLibinputDevice {
                send_events,
                tap,
                tap_button_map,
                tap_drag,
                tap_drag_lock,
                accel_speed,
                accel_profile,
                natural_scroll,
                left_handed,
                click_method,
                middle_emulation,
                scroll_method,
                scroll_button,
                scroll_button_lock,
                disable_while_typing,
                disable_while_trackpointing,
                calibration_matrix,
            },
        )
    }
}

/// An input device.
#[derive(Clone, Debug, PartialEq)]
pub struct SwayInput {
    pub identifier: String,
    pub name: String,
    pub vendor: u64,
    pub product: u64,
    /// The member `type`.
    pub input_type: SwayInputType,
    pub xkb_active_layout_name: Option<String>,
    pub xkb_layout_names: Option<Vec<String>>,
    pub xkb_active_layout_index: Option<u64>,
    pub scroll_factor: Option<Binary64>,
    pub libinput: Option<SwayLibinputDevice>,
}

/// The mathematical model of [`SwayInput`].
pub struct SwayInputView {
    pub identifier: Seq<char>,
    pub name: Seq<char>,
    pub vendor: u64,
    pub product: u64,
    pub input_type: SwayInputType,
    pub xkb_active_layout_name: Option<Seq<char>>,
    pub xkb_layout_names: Option<Seq<Seq<char>>>,
    pub xkb_active_layout_index: Option<u64>,
    pub scroll_factor: Option<Binary64>,
    pub libinput: Option<SwayLibinputDeviceView>,
}

impl DeepView for SwayInput {
    type V = SwayInputView;

    open spec fn deep_view(&self) -> SwayInputView {
        SwayInputView {
            identifier: self.identifier.deep_view(),
            name: self.name.deep_view(),
            vendor: self.vendor,
            product: self.product,
            input_type: self.input_type,
            xkb_active_layout_name: self.xkb_active_layout_name.deep_view(),
            xkb_layout_names: self.xkb_layout_names.deep_view(),
            xkb_active_layout_index: self.xkb_active_layout_index,
            scroll_factor: self.scroll_factor,
            libinput: self.libinput.deep_view(),
        }
    }
}

impl FromJson for SwayInput {
    open spec fn decoded(j: JsonValue) -> Result<SwayInputView, ShapeError> {
        let identifier = required::<String>(j, "identifier"@);
        let name = required::<String>(j, "name"@);
        let vendor = required::<u64>(j, "vendor"@);
        let product = required::<u64>(j, "product"@);
        let input_type = required::<SwayInputType>(j, "type"@);
        let xkb_active_layout_name = optional::<String>(j, "xkb_active_layout_name"@);
        let xkb_layout_names = optional_list::<String>(j, "xkb_layout_names"@);
        let xkb_active_layout_index = optional::<u64>(j, "xkb_active_layout_index"@);
        let scroll_factor = optional::<Binary64>(j, "scroll_factor"@);
        let libinput = optional::<SwayLibinputDevice>(j, "libinput"@);
        if !(j is Object) {
            Err(ShapeError::TypeMismatch)
        } else if identifier is Err {
            failed(identifier)
        } else if name is Err {
            failed(name)
        } else if vendor is Err {
            failed(vendor)
        } else if product is Err {
            failed(product)
        } else if input_type is Err {
            failed(input_type)
        } else if xkb_active_layout_name is Err {
            failed(xkb_active_layout_name)
        } else if xkb_layout_names is Err {
            failed(xkb_layout_names)
        } else if xkb_active_layout_index is Err {
            failed(xkb_active_layout_index)
        } else if scroll_factor is Err {
            failed(scroll_factor)
        } else if libinput is Err {
            failed(libinput)
        } else {
            Ok(
                SwayInputView {
                    identifier: identifier.unwrap(),
                    name: name.unwrap(),
                    vendor: vendor.unwrap(),
                    product: product.unwrap(),
                    input_type: input_type.unwrap(),
                    xkb_active_layout_name: xkb_active_layout_name.unwrap(),
                    xkb_layout_names: xkb_layout_names.unwrap(),
                    xkb_active_layout_index: xkb_active_layout_index.unwrap(),
                    scroll_factor: scroll_factor.unwrap(),
                    libinput: libinput.unwrap(),
                },
            )
        }
    }

    fn from_json(j: &Json) -> (r: Result<SwayInput, ShapeError>) {
        if !j.is_object() {
            return Err(ShapeError::TypeMismatch);
        }
        let identifier = req::<String>(j, "identifier")?;
        let name = req::<String>(j, "name")?;
        let vendor = req::<u64>(j, "vendor")?;
        let product = req::<u64>(j, "product")?;
        let input_type = req::<SwayInputType>(j, "type")?;
        let xkb_active_layout_name = opt::<String>(j, "xkb_active_layout_name")?;
        let xkb_layout_names = opt_list::<String>(j, "xkb_layout_names")?;
        let xkb_active_layout_index = opt::<u64>(j, "xkb_active_layout_index")?;
        let scroll_factor = opt::<Binary64>(j, "scroll_factor")?;
        let libinput = opt::<SwayLibinputDevice>(j, "libinput")?;
        Ok(
            SwayInput {
                identifier,
                name,
                vendor,
                product,
                input_type,
                xkb_active_layout_name,
                xkb_layout_names,
                xkb_active_layout_index,
                scroll_factor,
                libinput,
            },
        )
    }
}

/// A seat.
#[derive(Clone, Debug, PartialEq)]
pub struct SwaySeat {
    pub name: String,
    pub capabilities: u64,
    /// The id of the node that the seat has in focus; on the wire, zero where it
    /// has none.
    pub focus: Option<NonZeroU64>,
    pub devices: Vec<SwayInput>,
}

/// The mathematical model of [`SwaySeat`].
pub struct SwaySeatView {
    pub name: Seq<char>,
    pub capabilities: u64,
    pub focus: Option<NonZeroU64>,
    pub devices: Seq<SwayInputView>,
}

impl DeepView for SwaySeat {
    type V = SwaySeatView;

    open spec fn deep_view(&self) -> SwaySeatView {
        SwaySeatView {
            name: self.name.deep_view(),
            capabilities: self.capabilities,
            focus: self.focus,
            devices: self.devices.deep_view(),
        }
    }
}

impl FromJson for SwaySeat {
    open spec fn decoded(j: JsonValue) -> Result<SwaySeatView, ShapeError> {
        let name = required::<String>(j, "name"@);
        let capabilities = required::<u64>(j, "capabilities"@);
        let focus = required_sentinel(j, "focus"@);
        let devices = required_list::<SwayInput>(j, "devices"@);
        if !(j is Object) {
            Err(ShapeError::TypeMismatch)
        } else if name is Err {
            failed(name)
        } else if capabilities is Err {
            failed(capabilities)
        } else if focus is Err {
            failed(focus)
        } else if devices is Err {
            failed(devices)
        } else {
            Ok(
                SwaySeatView {
                    name: name.unwrap(),
                    capabilities: capabilities.unwrap(),
                    focus: focus.unwrap(),
                    devices: devices.unwrap(),
                },
            )
        }
    }

    fn from_json(j: &Json) -> (r: Result<SwaySeat, ShapeError>) {
        if !j.is_object() {
            return Err(ShapeError::TypeMismatch);
        }
        let name = req::<String>(j, "name")?;
        let capabilities = req::<u64>(j, "capabilities")?;
        let focus = req_sentinel(j, "focus")?;
        let devices = req_list::<SwayInput>(j, "devices")?;
        Ok(SwaySeat { name, capabilities, focus, devices })
    }
}

} // verus!
