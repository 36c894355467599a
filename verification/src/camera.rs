//! Camera pose, keyboard-driven camera control, and the GPU uniform record.

use vstd::prelude::*;

verus! {

/// Whether a key in a keyboard event was pressed down or released.
#[derive(Clone, Copy, Debug, PartialEq, Eq, Structural)]
pub enum KeyState {
    Pressed,
    Released,
}

/// The virtual key of a keyboard event. The controller recognizes the four
/// WASD keys and the four arrow keys; every other key is `Other`.
#[derive(Clone, Copy, Debug, PartialEq, Eq, Structural)]
pub enum VirtualKey {
    W,
    A,
    S,
    D,
    Up,
    Down,
    Left,
    Right,
    Other,
}

/// A window event, reduced to what the camera controller reads: a keyboard
/// event carries a key state and possibly a virtual key; anything else
/// (mouse, resize, focus, ...) is `Other`.
#[derive(Clone, Copy, Debug)]
pub enum WindowEvent {
    Keyboard { state: KeyState, key: Option<VirtualKey> },
    Other,
}

/// Camera pose and projection parameters. Every field is the IEEE-754
/// single-precision bit pattern of the corresponding scalar; `eye`, `target`
/// and `up` hold the bit patterns of a 3-vector's components.
#[derive(Clone, Copy, Debug)]
pub struct Camera {
    pub eye: [u32; 3],
    pub target: [u32; 3],
    pub up: [u32; 3],
    pub aspect: u32,
    pub fovy: u32,
    pub znear: u32,
    pub zfar: u32,
}

/// Translates keyboard events into camera-movement intent: one flag per
/// movement direction, plus the movement speed as an IEEE-754 bit pattern.
/// The controller never does arithmetic on the speed; it only hands it to
/// the code that moves the camera.
#[derive(Clone, Copy, Debug, PartialEq, Eq, Structural)]
pub struct CameraController {
    pub speed_bits: u32,
    pub is_forward_pressed: bool,
    pub is_backward_pressed: bool,
    pub is_left_pressed: bool,
    pub is_right_pressed: bool,
}

/// True for the eight keys the controller reacts to.
pub open spec fn key_recognized(k: VirtualKey) -> bool {
    k != VirtualKey::Other
}

/// The movement flag a key controls: W and Up share the forward flag, A and
/// Left the left flag, S and Down the backward flag, D and Right the right
/// flag. `Other` controls no flag.
pub open spec fn flag_for_key(c: CameraController, k: VirtualKey) -> bool {
    match k {
        VirtualKey::W | VirtualKey::Up => c.is_forward_pressed,
        VirtualKey::A | VirtualKey::Left => c.is_left_pressed,
        VirtualKey::S | VirtualKey::Down => c.is_backward_pressed,
        VirtualKey::D | VirtualKey::Right => c.is_right_pressed,
        VirtualKey::Other => false,
    }
}

/// True when the two keys control the same movement flag.
pub open spec fn keys_share_flag(a: VirtualKey, b: VirtualKey) -> bool {
    ||| (a == VirtualKey::W || a == VirtualKey::Up) && (b == VirtualKey::W || b == VirtualKey::Up)
    ||| (a == VirtualKey::A || a == VirtualKey::Left) && (b == VirtualKey::A || b == VirtualKey::Left)
    ||| (a == VirtualKey::S || a == VirtualKey::Down) && (b == VirtualKey::S || b == VirtualKey::Down)
    ||| (a == VirtualKey::D || a == VirtualKey::Right) && (b == VirtualKey::D || b == VirtualKey::Right)
}

/// The controller after one keyboard event with a virtual key: a recognized
/// key sets its movement flag to the key's pressed state; `Other` changes
/// nothing.
pub open spec fn controller_after_key(
    c: CameraController,
    state: KeyState,
    k: VirtualKey,
) -> CameraController {
    let pressed = state == KeyState::Pressed;
    match k {
        VirtualKey::W | VirtualKey::Up => CameraController { is_forward_pressed: pressed, ..c },
        VirtualKey::A | VirtualKey::Left => CameraController { is_left_pressed: pressed, ..c },
        VirtualKey::S | VirtualKey::Down => CameraController { is_backward_pressed: pressed, ..c },
        VirtualKey::D | VirtualKey::Right => CameraController { is_right_pressed: pressed, ..c },
        VirtualKey::Other => c,
    }
}

/// Whether the controller consumes an event: exactly the keyboard events
/// that carry one of the eight recognized keys.
pub open spec fn event_consumed(e: WindowEvent) -> bool {
    match e {
        WindowEvent::Keyboard { state: _, key: Some(k) } => key_recognized(k),
        _ => false,
    }
}

/// The controller after an arbitrary window event.
pub open spec fn controller_after_event(c: CameraController, e: WindowEvent) -> CameraController {
    match e {
        WindowEvent::Keyboard { state, key: Some(k) } => controller_after_key(c, state, k),
        _ => c,
    }
}

impl CameraController {
    /// A controller with the given speed bit pattern and no key held.
    pub fn new(speed_bits: u32) -> (c: CameraController)
        ensures
            c == (CameraController {
                speed_bits,
                is_forward_pressed: false,
                is_backward_pressed: false,
                is_left_pressed: false,
                is_right_pressed: false,
            }),
    {
        CameraController {
            speed_bits,
            is_forward_pressed: false,
            is_backward_pressed: false,
            is_left_pressed: false,
            is_right_pressed: false,
        }
    }

    /// Reads one window event. A keyboard event with one of the eight
    /// recognized keys sets that key's movement flag to the pressed state
    /// and is consumed; every other event leaves the controller unchanged
    /// and is not consumed.
    pub fn process_events(&mut self, event: &WindowEvent) -> (consumed: bool)
        ensures
            consumed == event_consumed(*event),
            *final(self) == controller_after_event(*old(self), *event),
    {
        match event {
            WindowEvent::Keyboard { state, key: Some(keycode) } => {
                let is_pressed = *state == KeyState::Pressed;
                match keycode {
                    VirtualKey::W | VirtualKey::Up => {
                        self.is_forward_pressed = is_pressed;
                        true
                    },
                    VirtualKey::A | VirtualKey::Left => {
                        self.is_left_pressed = is_pressed;
                        true
                    },
                    VirtualKey::S | VirtualKey::Down => {
                        self.is_backward_pressed = is_pressed;
                        true
                    },
                    VirtualKey::D | VirtualKey::Right => {
                        self.is_right_pressed = is_pressed;
                        true
                    },
                    VirtualKey::Other => false,
                }
            },
            _ => false,
        }
    }
}

/// The moves one camera update performs, in the order the update applies
/// them: an optional step toward the target, an optional step away from it,
/// then an optional orbit to the right and an optional orbit to the left
/// (when both strafe keys are held, the left orbit is applied last and
/// decides the final eye position).
#[derive(Clone, Copy, Debug, PartialEq, Eq, Structural)]
pub struct MovementPlan {
    pub move_forward: bool,
    pub move_backward: bool,
    pub orbit_right: bool,
    pub orbit_left: bool,
}

/// The plan a controller produces. `forward_exceeds_speed` reports whether
/// the current eye-to-target distance is strictly greater than the speed;
/// the forward step is suppressed when it is not, so the eye never crosses
/// or lands on the target.
pub open spec fn movement_plan_spec(c: CameraController, forward_exceeds_speed: bool) -> MovementPlan {
    MovementPlan {
        move_forward: c.is_forward_pressed && forward_exceeds_speed,
        move_backward: c.is_backward_pressed,
        orbit_right: c.is_right_pressed,
        orbit_left: c.is_left_pressed,
    }
}

impl CameraController {
    /// Decides which moves one camera update performs, from the held keys
    /// and from whether the eye-to-target distance strictly exceeds the
    /// speed. The caller measures that distance, performs the planned moves
    /// in order, and recomputes the radius between the forward/backward
    /// steps and the orbits.
    pub fn movement_plan(&self, forward_exceeds_speed: bool) -> (p: MovementPlan)
        ensures
            p == movement_plan_spec(*self, forward_exceeds_speed),
    {
        MovementPlan {
            move_forward: self.is_forward_pressed && forward_exceeds_speed,
            move_backward: self.is_backward_pressed,
            orbit_right: self.is_right_pressed,
            orbit_left: self.is_left_pressed,
        }
    }
}

/// Law: when the remaining distance to the target does not exceed the
/// speed, the plan never moves forward, whatever keys are held; in every
/// other respect the plan follows the flags exactly.
pub proof fn lemma_forward_clamped(c: CameraController)
    ensures
        !movement_plan_spec(c, false).move_forward,
        movement_plan_spec(c, true).move_forward == c.is_forward_pressed,
        forall|x: bool|
            #![trigger movement_plan_spec(c, x)]
            movement_plan_spec(c, x).move_backward == c.is_backward_pressed
                && movement_plan_spec(c, x).orbit_right == c.is_right_pressed
                && movement_plan_spec(c, x).orbit_left == c.is_left_pressed,
{
}

/// Law: pressing a recognized key sets exactly its movement flag and the
/// event is consumed; releasing it afterwards clears exactly that flag and
/// is consumed too. Keys that control a different flag, and the speed, are
/// untouched by both steps.
pub proof fn lemma_press_release_toggles(c: CameraController, k: VirtualKey, other: VirtualKey)
    requires
        key_recognized(k),
    ensures
        event_consumed(WindowEvent::Keyboard { state: KeyState::Pressed, key: Some(k) }),
        event_consumed(WindowEvent::Keyboard { state: KeyState::Released, key: Some(k) }),
        flag_for_key(controller_after_key(c, KeyState::Pressed, k), k),
        !flag_for_key(
            controller_after_key(controller_after_key(c, KeyState::Pressed, k), KeyState::Released, k),
            k,
        ),
        !keys_share_flag(other, k) ==> flag_for_key(
            controller_after_key(c, KeyState::Pressed, k),
            other,
        ) == flag_for_key(c, other),
        controller_after_key(c, KeyState::Pressed, k).speed_bits == c.speed_bits,
{
}

/// Law: an event the controller does not consume changes nothing.
pub proof fn lemma_unconsumed_changes_nothing(c: CameraController, e: WindowEvent)
    requires
        !event_consumed(e),
    ensures
        controller_after_event(c, e) == c,
{
}

/// The IEEE-754 single-precision bit pattern of 1.0.
pub const F32_ONE_BITS: u32 = 0x3f80_0000;

/// The camera record the renderer uploads to the GPU each frame: the eye
/// position padded to four components, then a 4x4 view-projection matrix in
/// column-major order. Every entry is an IEEE-754 single-precision bit
/// pattern; `view_projection[c][r]` is row `r` of column `c`.
#[derive(Clone, Copy, Debug)]
pub struct CameraUniform {
    pub view_position: [u32; 4],
    pub view_projection: [[u32; 4]; 4],
}

impl CameraUniform {
    /// A uniform with the position at the origin and the identity matrix.
    pub fn new() -> (u: CameraUniform)
        ensures
            u.view_position@ =~= seq![0u32, 0u32, 0u32, 0u32],
            forall|c: int, r: int|
                0 <= c < 4 && 0 <= r < 4 ==> u.view_projection[c][r] == (if c == r {
                    F32_ONE_BITS
                } else {
                    0u32
                }),
    {
        CameraUniform {
            view_position: [0, 0, 0, 0],
            view_projection: [
                [F32_ONE_BITS, 0, 0, 0],
                [0, F32_ONE_BITS, 0, 0],
                [0, 0, F32_ONE_BITS, 0],
                [0, 0, 0, F32_ONE_BITS],
            ],
        }
    }

    /// Writes the camera's eye position (padded with a fourth component of
    /// all-zero bits, the encoding of 0.0) and the given view-projection
    /// matrix into the uniform. The matrix is handed in already composed by
    /// the caller, column-major.
    pub fn update_view_projection(&mut self, camera: &Camera, view_projection: [[u32; 4]; 4])
        ensures
            final(self).view_position@ =~= seq![
                camera.eye[0],
                camera.eye[1],
                camera.eye[2],
                0u32,
            ],
            final(self).view_projection == view_projection,
    {
        self.view_position = [camera.eye[0], camera.eye[1], camera.eye[2], 0];
        self.view_projection = view_projection;
    }

    /// The uniform packed for upload: an 80-byte record, the four position
    /// words followed by the sixteen matrix words in column-major order,
    /// each word little-endian.
    pub fn to_bytes(&self) -> (b: Vec<u8>)
        ensures
            b@ == crate::layout::bytes_of_words(uniform_words(*self)),
            b@.len() == 80,
            forall|n: int|
                0 <= n < 80 ==> #[trigger] b@[n] == crate::layout::le_bytes(
                    uniform_words(*self)[n / 4],
                )[n % 4],
    {
        let mut ws: Vec<u32> = Vec::new();
        ws.push(self.view_position[0]);
        ws.push(self.view_position[1]);
        ws.push(self.view_position[2]);
        ws.push(self.view_position[3]);
        ws.push(self.view_projection[0][0]);
        ws.push(self.view_projection[0][1]);
        ws.push(self.view_projection[0][2]);
        ws.push(self.view_projection[0][3]);
        ws.push(self.view_projection[1][0]);
        ws.push(self.view_projection[1][1]);
        ws.push(self.view_projection[1][2]);
        ws.push(self.view_projection[1][3]);
        ws.push(self.view_projection[2][0]);
        ws.push(self.view_projection[2][1]);
        ws.push(self.view_projection[2][2]);
        ws.push(self.view_projection[2][3]);
        ws.push(self.view_projection[3][0]);
        ws.push(self.view_projection[3][1]);
        ws.push(self.view_projection[3][2]);
        ws.push(self.view_projection[3][3]);
        proof {
            assert(ws@ =~= uniform_words(*self));
        }
        let b = crate::layout::words_to_bytes(&ws);
        proof {
            assert forall|n: int| 0 <= n < 80 implies b@[n] == crate::layout::le_bytes(
                uniform_words(*self)[n / 4],
            )[n % 4] by {
                vstd::arithmetic::div_mod::lemma_fundamental_div_mod(n, 4);
                vstd::arithmetic::div_mod::lemma_mod_bound(n, 4);
                crate::layout::lemma_bytes_of_words_index(ws@, n / 4, n % 4);
            }
        }
        b
    }
}

/// The 20 words of the uniform record in upload order: position first, then
/// the matrix column by column.
pub open spec fn uniform_words(u: CameraUniform) -> Seq<u32> {
    seq![
        u.view_position[0],
        u.view_position[1],
        u.view_position[2],
        u.view_position[3],
        u.view_projection[0][0],
        u.view_projection[0][1],
        u.view_projection[0][2],
        u.view_projection[0][3],
        u.view_projection[1][0],
        u.view_projection[1][1],
        u.view_projection[1][2],
        u.view_projection[1][3],
        u.view_projection[2][0],
        u.view_projection[2][1],
        u.view_projection[2][2],
        u.view_projection[2][3],
        u.view_projection[3][0],
        u.view_projection[3][1],
        u.view_projection[3][2],
        u.view_projection[3][3],
    ]
}

} // verus!
