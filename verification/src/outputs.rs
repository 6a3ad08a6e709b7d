//! Outputs and workspaces.

use crate::decode::{
    failed, known, opt, optional, req, req_list, required, required_list, FromJson,
};
use crate::error::ShapeError;
use crate::json::{Binary64, Json, JsonValue};
use crate::text::str_eq;
use vstd::prelude::*;

verus! {

/// A rectangle on the layout, in pixels.
#[derive(Clone, Copy, Debug, PartialEq, Eq, Hash, Structural)]
pub struct Rect {
    pub x: i64,
    pub y: i64,
    pub width: i64,
    pub height: i64,
}

impl DeepView for Rect {
    type V = Rect;

    open spec fn deep_view(&self) -> Rect {
        *self
    }
}

impl FromJson for Rect {
    open spec fn decoded(j: JsonValue) -> Result<Rect, ShapeError> {
        let x = required::<i64>(j, "x"@);
        let y = required::<i64>(j, "y"@);
        let width = required::<i64>(j, "width"@);
        let height = required::<i64>(j, "height"@);
        if !(j is Object) {
            Err(ShapeError::TypeMismatch)
        } else if x is Err {
            failed(x)
        } else if y is Err {
            failed(y)
        } else if width is Err {
            failed(width)
        } else if height is Err {
            failed(height)
        } else {
            Ok(
                Rect {
                    x: x.unwrap(),
                    y: y.unwrap(),
                    width: width.unwrap(),
                    height: height.unwrap(),
                },
            )
        }
    }

    fn from_json(j: &Json) -> (r: Result<Rect, ShapeError>) {
        if !j.is_object() {
            return Err(ShapeError::TypeMismatch);
        }
        let x = req::<i64>(j, "x")?;
        let y = req::<i64>(j, "y")?;
        let width = req::<i64>(j, "width")?;
        let height = req::<i64>(j, "height")?;
        Ok(Rect { x, y, width, height })
    }
}

/// How the subpixels of an output are laid out.
#[derive(Clone, Copy, Debug, PartialEq, Eq, Hash, Structural)]
pub enum SubpixelHinting {
    Rgb,
    Bgr,
    Vrgb,
    Vbgr,
    NoHinting,
}

impl DeepView for SubpixelHinting {
    type V = SubpixelHinting;

    open spec fn deep_view(&self) -> SubpixelHinting {
        *self
    }
}

impl SubpixelHinting {
    /// The subpixel layout that a name of the protocol stands for.
    pub open spec fn spec_from_name(name: Seq<char>) -> Option<SubpixelHinting> {
        if name == "rgb"@ {
            Some(SubpixelHinting::Rgb)
        } else if name == "bgr"@ {
            Some(SubpixelHinting::Bgr)
        } else if name == "vrgb"@ {
            Some(SubpixelHinting::Vrgb)
        } else if name == "vbgr"@ {
            Some(SubpixelHinting::Vbgr)
        } else if name == "none"@ {
            Some(SubpixelHinting::NoHinting)
        } else {
            None
        }
    }

    pub fn from_name(name: &str) -> (r: Option<SubpixelHinting>)
        ensures
            r == SubpixelHinting::spec_from_name(name@),
    {
        if str_eq(name, "rgb") {
            Some(SubpixelHinting::Rgb)
        } else if str_eq(name, "bgr") {
            Some(SubpixelHinting::Bgr)
        } else if str_eq(name, "vrgb") {
            Some(SubpixelHinting::Vrgb)
        } else if str_eq(name, "vbgr") {
            Some(SubpixelHinting::Vbgr)
        } else if str_eq(name, "none") {
            Some(SubpixelHinting::NoHinting)
        } else {
            None
        }
    }
}

impl FromJson for SubpixelHinting {
    open spec fn decoded(j: JsonValue) -> Result<SubpixelHinting, ShapeError> {
        match j.as_str() {
            Some(name) => known(SubpixelHinting::spec_from_name(name)),
            None => Err(ShapeError::TypeMismatch),
        }
    }

    fn from_json(j: &Json) -> (r: Result<SubpixelHinting, ShapeError>) {
        match j.as_str() {
            Some(name) => match SubpixelHinting::from_name(name) {
                Some(v) => Ok(v),
                None => Err(ShapeError::UnknownVariant),
            },
            None => Err(ShapeError::TypeMismatch),
        }
    }
}

/// How the picture of an output is turned and mirrored.
#[derive(Clone, Copy, Debug, PartialEq, Eq, Hash, Structural)]
pub enum Transform {
    Normal,
    Ninety,
    OneEighty,
    TwoSeventy,
    Flipped90,
    Flipped180,
    Flipped270,
}

impl DeepView for Transform {
    type V = Transform;

    open spec fn deep_view(&self) -> Transform {
        *self
    }
}

impl Transform {
    /// The transform that a name of the protocol stands for.
    pub open spec fn spec_from_name(name: Seq<char>) -> Option<Transform> {
        if name == "normal"@ {
            Some(Transform::Normal)
        } else if name == "90"@ {
            Some(Transform::Ninety)
        } else if name == "180"@ {
            Some(Transform::OneEighty)
        } else if name == "270"@ {
            Some(Transform::TwoSeventy)
        } else if name == "flipped-90"@ {
            Some(Transform::Flipped90)
        } else if name == "flipped-180"@ {
            Some(Transform::Flipped180)
        } else if name == "flipped-270"@ {
            Some(Transform::Flipped270)
        } else {
            None
        }
    }

    pub fn from_name(name: &str) -> (r: Option<Transform>)
        ensures
            r == Transform::spec_from_name(name@),
    {
        if str_eq(name, "normal") {
            Some(Transform::Normal)
        } else if str_eq(name, "90") {
            Some(Transform::Ninety)
        } else if str_eq(name, "180") {
            Some(Transform::OneEighty)
        } else if str_eq(name, "270") {
            Some(Transform::TwoSeventy)
        } else if str_eq(name, "flipped-90") {
            Some(Transform::Flipped90)
        } else if str_eq(name, "flipped-180") {
            Some(Transform::Flipped180)
        } else if str_eq(name, "flipped-270") {
            Some(Transform::Flipped270)
        } else {
            None
        }
    }
}

impl FromJson for Transform {
    open spec fn decoded(j: JsonValue) -> Result<Transform, ShapeError> {
        match j.as_str() {
            Some(name) => known(Transform::spec_from_name(name)),
            None => Err(ShapeError::TypeMismatch),
        }
    }

    fn from_json(j: &Json) -> (r: Result<Transform, ShapeError>) {
        match j.as_str() {
            Some(name) => match Transform::from_name(name) {
                Some(v) => Ok(v),
                None => Err(ShapeError::UnknownVariant),
            },
            None => Err(ShapeError::TypeMismatch),
        }
    }
}

/// A mode that an output can run in.
#[derive(Clone, Copy, Debug, PartialEq, Eq, Hash, Structural)]
pub struct OutputMode {
    pub width: u64,
    pub height: u64,
    /// The refresh rate, in millihertz.
    pub refresh: u64,
}

impl DeepView for OutputMode {
    type V = OutputMode;

    open spec fn deep_view(&self) -> OutputMode {
        *self
    }
}

impl FromJson for OutputMode {
    open spec fn decoded(j: JsonValue) -> Result<OutputMode, ShapeError> {
        let width = required::<u64>(j, "width"@);
        let height = required::<u64>(j, "height"@);
        let refresh = required::<u64>(j, "refresh"@);
        if !(j is Object) {
            Err(ShapeError::TypeMismatch)
        } else if width is Err {
            failed(width)
        } else if height is Err {
            failed(height)
        } else if refresh is Err {
            failed(refresh)
        } else {
            Ok(
                OutputMode {
                    width: width.unwrap(),
                    height: height.unwrap(),
                    refresh: refresh.unwrap(),
                },
            )
        }
    }

    fn from_json(j: &Json) -> (r: Result<OutputMode, ShapeError>) {
        if !j.is_object() {
            return Err(ShapeError::TypeMismatch);
        }
        let width = req::<u64>(j, "width")?;
        let height = req::<u64>(j, "height")?;
        let refresh = req::<u64>(j, "refresh")?;
        Ok(OutputMode { width, height, refresh })
    }
}

/// An output that the window manager sees.
#[derive(Clone, Debug, PartialEq)]
pub struct Output {
    pub name: String,
    pub make: String,
    pub model: String,
    pub serial: String,
    pub active: bool,
    /// Deprecated in favour of `power`.
    pub dpms: bool,
    pub power: bool,
    /// Kept for compatibility.
    pub primary: bool,
    /// The scale factor; -1 where the output is disabled.
    pub scale: Binary64,
    pub subpixel_hinting: SubpixelHinting,
    pub transform: Transform,
    pub current_workspace: Option<String>,
    pub modes: Vec<OutputMode>,
    pub current_mode: OutputMode,
    pub rect: Rect,
}

/// The mathematical model of [`Output`].
pub struct OutputView {
    pub name: Seq<char>,
    pub make: Seq<char>,
    pub model: Seq<char>,
    pub serial: Seq<char>,
    pub active: bool,
    pub dpms: bool,
    pub power: bool,
    pub primary: bool,
    pub scale: Binary64,
    pub subpixel_hinting: SubpixelHinting,
    pub transform: Transform,
    pub current_workspace: Option<Seq<char>>,
    pub modes: Seq<OutputMode>,
    pub current_mode: OutputMode,
    pub rect: Rect,
}

impl DeepView for Output {
    type V = OutputView;

    open spec fn deep_view(&self) -> OutputView {
        OutputView {
            name: self.name.deep_view(),
            make: self.make.deep_view(),
            model: self.model.deep_view(),
            serial: self.serial.deep_view(),
            active: self.active,
            dpms: self.dpms,
            power: self.power,
            primary: self.primary,
            scale: self.scale,
            subpixel_hinting: self.subpixel_hinting,
            transform: self.transform,
            current_workspace: self.current_workspace.deep_view(),
            modes: self.modes.deep_view(),
            current_mode: self.current_mode,
            rect: self.rect,
        }
    }
}

impl FromJson for Output {
    open spec fn decoded(j: JsonValue) -> Result<OutputView, ShapeError> {
        let name = required::<String>(j, "name"@);
        let make = required::<String>(j, "make"@);
        let model = required::<String>(j, "model"@);
        let serial = required::<String>(j, "serial"@);
        let active = required::<bool>(j, "active"@);
        let dpms = required::<bool>(j, "dpms"@);
        let power = required::<bool>(j, "power"@);
        let primary = required::<bool>(j, "primary"@);
        let scale = required::<Binary64>(j, "scale"@);
        let subpixel_hinting = required::<SubpixelHinting>(j, "subpixel_hinting"@);
        let transform = required::<Transform>(j, "transform"@);
        let current_workspace = optional::<String>(j, "current_workspace"@);
        let modes = required_list::<OutputMode>(j, "modes"@);
        let current_mode = required::<OutputMode>(j, "current_mode"@);
        let rect = required::<Rect>(j, "rect"@);
        if !(j is Object) {
            Err(ShapeError::TypeMismatch)
        } else if name is Err {
            failed(name)
        } else if make is Err {
            failed(make)
        } else if model is Err {
            failed(model)
        } else if serial is Err {
            failed(serial)
        } else if active is Err {
            failed(active)
        } else if dpms is Err {
            failed(dpms)
        } else if power is Err {
            failed(power)
        } else if primary is Err {
            failed(primary)
        } else if scale is Err {
            failed(scale)
        } else if subpixel_hinting is Err {
            failed(subpixel_hinting)
        } else if transform is Err {
            failed(transform)
        } else if current_workspace is Err {
            failed(current_workspace)
        } else if modes is Err {
            failed(modes)
        } else if current_mode is Err {
            failed(current_mode)
        } else if rect is Err {
            failed(rect)
        } else {
            Ok(
                OutputView {
                    name: name.unwrap(),
                    make: make.unwrap(),
                    model: model.unwrap(),
                    serial: serial.unwrap(),
                    active: active.unwrap(),
                    dpms: dpms.unwrap(),
                    power: power.unwrap(),
                    primary: primary.unwrap(),
                    scale: scale.unwrap(),
                    subpixel_hinting: subpixel_hinting.unwrap(),
                    transform: transform.unwrap(),
                    current_workspace: current_workspace.unwrap(),
                    modes: modes.unwrap(),
                    current_mode: current_mode.unwrap(),
                    rect: rect.unwrap(),
                },
            )
        }
    }

    fn from_json(j: &Json) -> (r: Result<Output, ShapeError>) {
        if !j.is_object() {
            return Err(ShapeError::TypeMismatch);
        }
        let name = req::<String>(j, "name")?;
        let make = req::<String>(j, "make")?;
        let model = req::<String>(j, "model")?;
        let serial = req::<String>(j, "serial")?;
        let active = req::<bool>(j, "active")?;
        let dpms = req::<bool>(j, "dpms")?;
        let power = req::<bool>(j, "power")?;
        let primary = req::<bool>(j, "primary")?;
        let scale = req::<Binary64>(j, "scale")?;
        let subpixel_hinting = req::<SubpixelHinting>(j, "subpixel_hinting")?;
        let transform = req::<Transform>(j, "transform")?;
        let current_workspace = opt::<String>(j, "current_workspace")?;
        let modes = req_list::<OutputMode>(j, "modes")?;
        let current_mode = req::<OutputMode>(j, "current_mode")?;
        let rect = req::<Rect>(j, "rect")?;
        Ok(
            Output {
                name,
                make,
                model,
                serial,
                active,
                dpms,
                power,
                primary,
                scale,
                subpixel_hinting,
                transform,
                current_workspace,
                modes,
                current_mode,
                rect,
            },
        )
    }
}

/// A workspace.
#[derive(Clone, Debug, PartialEq)]
pub struct Workspace {
    /// The number of the workspace, or -1 where its name does not begin with one.
    pub num: i64,
    pub name: String,
    pub visible: bool,
    pub focused: bool,
    pub urgent: bool,
    pub rect: Rect,
    /// The name of the output that the workspace is on.
    pub output: String,
}

/// The mathematical model of [`Workspace`].
pub struct WorkspaceView {
    pub num: i64,
    pub name: Seq<char>,
    pub visible: bool,
    pub focused: bool,
    pub urgent: bool,
    pub rect: Rect,
    pub output: Seq<char>,
}

impl DeepView for Workspace {
    type V = WorkspaceView;

    open spec fn deep_view(&self) -> WorkspaceView {
        WorkspaceView {
            num: self.num,
            name: self.name.deep_view(),
            visible: self.visible,
            focused: self.focused,
            urgent: self.urgent,
            rect: self.rect,
            output: self.output.deep_view(),
        }
    }
}

impl FromJson for Workspace {
    open spec fn decoded(j: JsonValue) -> Result<WorkspaceView, ShapeError> {
        let num = required::<i64>(j, "num"@);
        let name = required::<String>(j, "name"@);
        let visible = required::<bool>(j, "visible"@);
        let focused = required::<bool>(j, "focused"@);
        let urgent = required::<bool>(j, "urgent"@);
        let rect = required::<Rect>(j, "rect"@);
        let output = required::<String>(j, "output"@);
        if !(j is Object) {
            Err(ShapeError::TypeMismatch)
        } else if num is Err {
            failed(num)
        } else if name is Err {
            failed(name)
        } else if visible is Err {
            failed(visible)
        } else if focused is Err {
            failed(focused)
        } else if urgent is Err {
            failed(urgent)
        } else if rect is Err {
            failed(rect)
        } else if output is Err {
            failed(output)
        } else {
            Ok(
                WorkspaceView {
                    num: num.unwrap(),
                    name: name.unwrap(),
                    visible: visible.unwrap(),
                    focused: focused.unwrap(),
                    urgent: urgent.unwrap(),
                    rect: rect.unwrap(),
                    output: output.unwrap(),
                },
            )
        }
    }

    fn from_json(j: &Json) -> (r: Result<Workspace, ShapeError>) {
        if !j.is_object() {
            return Err(ShapeError::TypeMismatch);
        }
        let num = req::<i64>(j, "num")?;
        let name = req::<String>(j, "name")?;
        let visible = req::<bool>(j, "visible")?;
        let focused = req::<bool>(j, "focused")?;
        let urgent = req::<bool>(j, "urgent")?;
        let rect = req::<Rect>(j, "rect")?;
        let output = req::<String>(j, "output")?;
        Ok(Workspace { num, name, visible, focused, urgent, rect, output })
    }
}

} // verus!
