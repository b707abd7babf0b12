//! Drawing phases, draw-callback registration, graphics state and texture numbers.
use vstd::prelude::*;

verus! {

/// Phases in which drawing can occur.
#[derive(Debug, Clone, Copy, PartialEq, Eq, Structural)]
pub enum Phase {
    /// After X-Plane draws the 2D panel
    AfterPanel,
    /// After X-Plane draws panel gauges
    AfterGauges,
    /// After X-Plane draws user interface windows
    AfterWindows,
    /// After X-Plane draws 3D content in the local map window
    AfterLocalMap3D,
    /// After X-Plane draws 2D content in the local map window
    AfterLocalMap2D,
    /// After X-Plane draws 2D content in the local map profile view
    AfterLocalMapProfile,
}

/// The `XPLMDrawingPhase` code of each phase, as the X-Plane SDK defines it.
pub open spec fn phase_code(phase: Phase) -> i32 {
    match phase {
        Phase::AfterPanel => 40,
        Phase::AfterGauges => 45,
        Phase::AfterWindows => 50,
        Phase::AfterLocalMap2D => 101,
        Phase::AfterLocalMap3D => 100,
        Phase::AfterLocalMapProfile => 102,
    }
}

impl Phase {
    /// Converts this phase into the `XPLMDrawingPhase` that X-Plane expects.
    pub fn to_xplm(self) -> (code: i32)
        ensures
            code == phase_code(self),
    {
        match self {
            Phase::AfterPanel => 40,
            Phase::AfterGauges => 45,
            Phase::AfterWindows => 50,
            Phase::AfterLocalMap2D => 101,
            Phase::AfterLocalMap3D => 100,
            Phase::AfterLocalMapProfile => 102,
        }
    }
}

/// Distinct phases are registered under distinct X-Plane drawing phases.
pub proof fn lemma_phase_code_injective(a: Phase, b: Phase)
    ensures
        phase_code(a) == phase_code(b) <==> a == b,
{
}

/// Errors that can occur when creating a draw callback.
#[derive(Debug, Clone, Copy, PartialEq, Eq, Structural)]
pub enum Error {
    /// X-Plane does not support the provided phase
    UnsupportedPhase(Phase),
}

/// Decides the outcome of registering a draw callback for `phase`, from the status that
/// `XPLMRegisterDrawCallback` returned: X-Plane accepts the callback exactly when the
/// status is 1.
pub fn draw_registration_result(phase: Phase, status: i32) -> (r: Result<(), Error>)
    ensures
        status == 1 ==> r == Ok::<(), Error>(()),
        status != 1 ==> r == Err::<(), Error>(Error::UnsupportedPhase(phase)),
{
    if status == 1 {
        Ok(())
    } else {
        Err(Error::UnsupportedPhase(phase))
    }
}

/// Stores various flags that can be enabled or disabled.
#[derive(Debug, Clone, Copy, PartialEq, Eq, Structural)]
pub struct GraphicsState {
    /// Enable status of fog
    ///
    /// During 3-d rendering fog is set up to cause a fade-to-fog effect at the visibility limit.
    pub fog: bool,
    /// Enable status of 3D lighting
    pub lighting: bool,
    /// Enable status of alpha testing
    ///
    /// Alpha testing stops pixels from being rendered to the frame buffer if their alpha is zero.
    pub alpha_testing: bool,
    /// Enable status of alpha blending
    pub alpha_blending: bool,
    /// Enable status of depth testing
    pub depth_testing: bool,
    /// Enable status of depth writing
    pub depth_writing: bool,
    /// The number of textures that are enabled for use
    pub textures: i32,
}

/// The arguments of one call of `XPLMSetGraphicsState`, in the order the SDK takes them.
#[derive(Debug, Clone, Copy, PartialEq, Eq, Structural)]
pub struct GraphicsStateCall {
    pub fog: i32,
    pub number_tex_units: i32,
    pub lighting: i32,
    pub alpha_testing: i32,
    pub alpha_blending: i32,
    pub depth_testing: i32,
    pub depth_writing: i32,
}

/// X-Plane's integer for a flag: 1 for enabled, 0 for disabled.
pub open spec fn flag_code(b: bool) -> i32 {
    if b {
        1
    } else {
        0
    }
}

fn flag_to_xplm(b: bool) -> (v: i32)
    ensures
        v == flag_code(b),
{
    if b {
        1
    } else {
        0
    }
}

/// The state in which every flag is disabled and no texture unit is enabled.
pub open spec fn default_graphics_state() -> GraphicsState {
    GraphicsState {
        fog: false,
        lighting: false,
        alpha_testing: false,
        alpha_blending: false,
        depth_testing: false,
        depth_writing: false,
        textures: 0,
    }
}

impl Default for GraphicsState {
    fn default() -> (s: Self)
        ensures
            s == default_graphics_state(),
    {
        GraphicsState {
            fog: false,
            lighting: false,
            alpha_testing: false,
            alpha_blending: false,
            depth_testing: false,
            depth_writing: false,
            textures: 0,
        }
    }
}

impl GraphicsState {
    pub fn new() -> (s: Self)
        ensures
            s == default_graphics_state(),
    {
        Self::default()
    }

    /// The record that applying this state hands to `XPLMSetGraphicsState`: each flag as
    /// 1 or 0, and the number of texture units.
    pub fn apply(&self) -> (call: GraphicsStateCall)
        ensures
            call == (GraphicsStateCall {
                fog: flag_code(self.fog),
                number_tex_units: self.textures,
                lighting: flag_code(self.lighting),
                alpha_testing: flag_code(self.alpha_testing),
                alpha_blending: flag_code(self.alpha_blending),
                depth_testing: flag_code(self.depth_testing),
                depth_writing: flag_code(self.depth_writing),
            }),
    {
        GraphicsStateCall {
            fog: flag_to_xplm(self.fog),
            number_tex_units: self.textures,
            lighting: flag_to_xplm(self.lighting),
            alpha_testing: flag_to_xplm(self.alpha_testing),
            alpha_blending: flag_to_xplm(self.alpha_blending),
            depth_testing: flag_to_xplm(self.depth_testing),
            depth_writing: flag_to_xplm(self.depth_writing),
        }
    }

    pub fn fog(self, enabled: bool) -> (s: Self)
        ensures
            s == (GraphicsState { fog: enabled, ..self }),
    {
        let mut s = self;
        s.fog = enabled;
        s
    }

    pub fn lighting(self, enabled: bool) -> (s: Self)
        ensures
            s == (GraphicsState { lighting: enabled, ..self }),
    {
        let mut s = self;
        s.lighting = enabled;
        s
    }

    pub fn alpha_testing(self, enabled: bool) -> (s: Self)
        ensures
            s == (GraphicsState { alpha_testing: enabled, ..self }),
    {
        let mut s = self;
        s.alpha_testing = enabled;
        s
    }

    pub fn alpha_blending(self, enabled: bool) -> (s: Self)
        ensures
            s == (GraphicsState { alpha_blending: enabled, ..self }),
    {
        let mut s = self;
        s.alpha_blending = enabled;
        s
    }

    pub fn depth_testing(self, enabled: bool) -> (s: Self)
        ensures
            s == (GraphicsState { depth_testing: enabled, ..self }),
    {
        let mut s = self;
        s.depth_testing = enabled;
        s
    }

    pub fn depth_writing(self, enabled: bool) -> (s: Self)
        ensures
            s == (GraphicsState { depth_writing: enabled, ..self }),
    {
        let mut s = self;
        s.depth_writing = enabled;
        s
    }

    pub fn textures(self, count: i32) -> (s: Self)
        ensures
            s == (GraphicsState { textures: count, ..self }),
    {
        let mut s = self;
        s.textures = count;
        s
    }
}

/// The number of texture numbers to ask X-Plane for when the caller's buffer holds `len`
/// slots: all of them, but never more than `i32::MAX`.
pub fn texture_number_count(len: usize) -> (count: i32)
    ensures
        len < i32::MAX ==> count == len,
        len >= i32::MAX ==> count == i32::MAX,
{
    if len < (i32::MAX as usize) {
        len as i32
    } else {
        i32::MAX
    }
}

} // verus!
