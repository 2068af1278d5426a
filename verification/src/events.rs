//! What the device and the runner tell the menus, and what the menus ask for.
use vstd::prelude::*;
use crate::midi::PowerCommand;

verus! {

/// Encoder number of the jog wheel's touch sensor.
pub const JOG_WHEEL_TOUCH: usize = 9;
/// Encoder number of the volume wheel's touch sensor.
pub const VOLUME_WHEEL_TOUCH: usize = 8;
/// Encoder number of the volume wheel.
pub const VOLUME_WHEEL_ENCODER: usize = 9;
/// Encoder number of the jog wheel.
pub const JOG_WHEEL_ENCODER: usize = 10;

/// The buttons the menus react to.
#[derive(Copy, Clone, Debug, PartialEq, Eq, Structural)]
pub enum Button {
    JogWheel,
    Back,
    PowerLong,
    PowerShort,
    Menu,
    Play,
}

/// Input from the device and changes reported by the runner.
///
/// Encoders 0 to 7 are the parameter encoders; the wheels use the numbers
/// above. The tempo event carries no value: the menus only redraw on it.
#[derive(Copy, Clone, Debug, PartialEq, Eq, Structural)]
pub enum Events {
    BtnDown(Button),
    BtnUp(Button),
    EncLeft(usize),
    EncRight(usize),
    EncTouch(usize),
    Transport(bool),
    Tempo,
    /// A view index and a page.
    SetViewSelected(usize, usize),
    SetViewPageSelected(usize),
    /// A position in the "Device Params" list and a page.
    DeviceParamsSelected(usize, usize),
    /// A position in the "Device Data" list.
    DeviceDataSelected(usize),
    VisibleParamUpdated(usize),
    InstancesChanged(usize),
    DatarefMappingChanged,
    DatarefVisibleChanged,
    SetNamesChanged,
    SetPresetNamesChanged,
    PatcherNamesChanged,
    SetCurrentChanged,
    SetPresetLoadedChanged,
    SetViewListChanged,
    ChildProcessError,
    PopupRequested,
    PopupTimeout,
}

/// Work that the menus queue for the controller.
#[derive(Copy, Clone, Debug, PartialEq, Eq, Structural)]
pub enum Cmd {
    Power(PowerCommand),
    OffsetParam { instance: usize, index: usize, offset: isize },
    OffsetViewParam { view: usize, index: usize, offset: isize },
    OffsetVolume(isize),
    OffsetTempo(isize),
    MulTempoOffset(bool),
    ToggleTransport,
    LightButton { btn: u8, val: u8 },
    UpdateDataFileList,
    /// Local instance index, dataref index, file entry index.
    LoadDataref(usize, usize, usize),
    LoadSet(usize),
    SaveSetPreset,
    LoadSetPreset(usize),
    OverwriteSetPreset(usize),
    SetInitialSetPreset(usize),
    DeleteSetPreset(usize),
    LoadPatcher(usize),
    ReportViewParamPage(usize, usize),
}

} // verus!
