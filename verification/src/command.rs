//! The vocabulary between the scene controller and its host: handles for
//! the host's entities, the commands the controller issues, and the faults
//! that end an operation.

use vstd::prelude::*;

verus! {

/// Horizontal position at which the player enters the arena.
pub const PLAYER_START_X: u32 = 300;

/// Vertical position at which the player enters the arena.
pub const PLAYER_START_Y: u32 = 360;

/// Horizontal offset of the camera from the player it follows.
pub const CAMERA_OFFSET_X: u32 = 360;

/// Vertical offset of the camera from the player it follows.
pub const CAMERA_OFFSET_Y: u32 = 0;

/// Horizontal position of the game-over banner.
pub const BANNER_X: u32 = 440;

/// Vertical position of the game-over banner.
pub const BANNER_Y: u32 = 360;

/// The collision layer reserved for the geometry that ends a stage.
pub const STAGE_EXIT_BIT: u32 = 4;

/// The mask of the layer reserved for the geometry that ends a stage.
pub const STAGE_EXIT_MASK: u32 = 16;

/// A stable name for an entity, a template or a display node that the host
/// owns. The controller only stores and compares handles.
#[derive(Clone, Copy, Debug, PartialEq, Eq, Structural)]
pub struct Handle {
    pub id: u64,
}

/// What a label shows.
#[derive(Clone, Copy, Debug, PartialEq, Eq, Structural)]
pub enum Caption {
    /// The number of the stage about to begin.
    Stage(u32),
    /// The kills scored so far.
    Kills(u32),
    /// The banner shown once the player is lost.
    GameOver,
}

/// The character for a value below ten.
pub open spec fn digit_of(d: nat) -> char
    recommends
        d < 10,
{
    if d == 0 {
        '0'
    } else if d == 1 {
        '1'
    } else if d == 2 {
        '2'
    } else if d == 3 {
        '3'
    } else if d == 4 {
        '4'
    } else if d == 5 {
        '5'
    } else if d == 6 {
        '6'
    } else if d == 7 {
        '7'
    } else if d == 8 {
        '8'
    } else {
        '9'
    }
}

/// A number written in decimal, without leading zeros.
pub open spec fn decimal_text(n: nat) -> Seq<char>
    decreases n,
{
    if n < 10 {
        seq![digit_of(n)]
    } else {
        decimal_text(n / 10).push(digit_of(n % 10))
    }
}

/// `String::push`: the character is appended at the end and the rest of
/// the string is kept.
#[verifier::external_body]
fn push_char(text: &mut String, c: char)
    ensures
        final(text)@ == old(text)@.push(c),
{
    text.push(c)
}

/// Gives the character for a value below ten.
fn digit_char(d: u32) -> (c: char)
    requires
        d < 10,
    ensures
        c == digit_of(d as nat),
{
    if d == 0 {
        '0'
    } else if d == 1 {
        '1'
    } else if d == 2 {
        '2'
    } else if d == 3 {
        '3'
    } else if d == 4 {
        '4'
    } else if d == 5 {
        '5'
    } else if d == 6 {
        '6'
    } else if d == 7 {
        '7'
    } else if d == 8 {
        '8'
    } else {
        '9'
    }
}

/// Appends a number in decimal to a text.
fn push_decimal(text: &mut String, n: u32)
    ensures
        final(text)@ == old(text)@ + decimal_text(n as nat),
    decreases n,
{
    if n >= 10 {
        push_decimal(text, n / 10);
    }
    push_char(text, digit_char(n % 10));
    assert(text@ =~= old(text)@ + decimal_text(n as nat));
}

impl Caption {
    /// The characters that a caption shows.
    pub open spec fn text_of(self) -> Seq<char> {
        match self {
            Caption::Stage(n) => "Stage "@ + decimal_text(n as nat),
            Caption::Kills(n) => "Kills: "@ + decimal_text(n as nat),
            Caption::GameOver => "Game Over"@,
        }
    }

    /// Writes a caption out.
    pub fn text(&self) -> (text: String)
        ensures
            text@ == self.text_of(),
    {
        match self {
            Caption::Stage(n) => {
                let mut text = "Stage ".to_owned();
                push_decimal(&mut text, *n);
                text
            },
            Caption::Kills(n) => {
                let mut text = "Kills: ".to_owned();
                push_decimal(&mut text, *n);
                text
            },
            Caption::GameOver => "Game Over".to_owned(),
        }
    }
}

/// Why an operation could not go on. Each of them is fatal to the scene.
#[derive(Clone, Copy, Debug, PartialEq, Eq, Structural)]
pub enum Fault {
    /// No session record could be had where one is needed.
    SessionMissing,
    /// The enemy template could not be had.
    TemplateUnavailable,
    /// The player entity could not be produced, or is not held.
    PlayerUnavailable,
    /// The stage number has reached the largest value it can take.
    StageLimit,
}

/// One thing for the host to do. Commands are carried out in the order in
/// which the controller lists them.
#[derive(Clone, Copy, Debug, PartialEq, Eq, Structural)]
pub enum Action {
    /// Show a caption on a label.
    SetText { label: Handle, caption: Caption },
    /// Show or hide a label.
    SetVisible { label: Handle, visible: bool },
    /// Move an entity or a label.
    SetPosition { target: Handle, x: u32, y: u32 },
    /// Play the stage's intro animation once, forwards.
    PlayIntro,
    /// Give the player a camera of its own, at an offset, and make it the
    /// active view.
    AttachCamera { player: Handle, x: u32, y: u32 },
    /// Put an entity into the arena.
    AddToArena { entity: Handle },
    /// Make an enemy from the template and put it into the arena.
    SpawnEnemy { template: Handle, x: u32, y: u32 },
    /// Set the player's speed to zero.
    FreezePlayer { player: Handle },
    /// Tear the scene down and build it again.
    ReloadScene,
    /// Destroy an entity once the frame is over.
    QueueFree { entity: Handle },
    /// Take an entity out of the arena.
    RemoveFromArena { entity: Handle },
}

/// Whether a collision mask has the stage-exit layer set.
pub open spec fn is_stage_exit(layers: u32) -> bool {
    layers & STAGE_EXIT_MASK != 0
}

/// Tests a collision mask for the stage-exit layer.
pub fn has_stage_exit(layers: u32) -> (hit: bool)
    ensures
        hit == is_stage_exit(layers),
{
    layers & STAGE_EXIT_MASK != 0
}

/// The mask that is tested is the one of the reserved layer.
pub proof fn lemma_stage_exit_mask()
    ensures
        STAGE_EXIT_MASK == 1u32 << STAGE_EXIT_BIT,
        forall|layers: u32| is_stage_exit(layers) <==> (layers >> STAGE_EXIT_BIT) & 1 == 1,
{
    assert(16u32 == 1u32 << 4u32) by (bit_vector);
    assert forall|layers: u32| is_stage_exit(layers) <==> (layers >> STAGE_EXIT_BIT) & 1 == 1 by {
        assert((layers & 16u32 != 0) <==> ((layers >> 4u32) & 1 == 1)) by (bit_vector);
    }
}

} // verus!
