use vstd::prelude::*;
use crate::camera::{Direction, Dolly};
use crate::input::Layer;
use crate::motion::Movement;
use crate::parallax::ParallaxParameters;

verus! {

/// The states of the demo.
#[derive(Clone, Copy, Debug, PartialEq, Eq, PartialOrd, Ord, Hash, Structural)]
pub enum GameState {
    Example,
}

/// Foreground layers sit this far behind the camera carrier, plus their own depth.
pub const FOREGROUND_BASE: i64 = -999;

/// A background layer: where it stands in depth (whole units), how fast its
/// texture scrolls, and the asset path of that texture.
#[derive(Clone, Debug, PartialEq, Eq)]
pub struct BackgroundLayer {
    pub layer: Layer,
    pub depth: i64,
    pub parameters: ParallaxParameters,
    pub texture: String,
}

/// A foreground sprite, a child of the camera carrier: its depth relative to
/// the carrier (whole units), its texture and its motion.
#[derive(Clone, Debug, PartialEq, Eq)]
pub struct SpriteLayer {
    pub layer: Layer,
    pub depth: i64,
    pub texture: String,
    pub movement: Movement,
}

/// What entering the scene builds: three backgrounds, and the camera carrier
/// with its four sprites.
#[derive(Clone, Debug, PartialEq, Eq)]
pub struct SceneLayout {
    pub backgrounds: Vec<BackgroundLayer>,
    pub dolly: Dolly,
    pub sprites: Vec<SpriteLayer>,
}

/// The `i`-th background: its layer, depth, scroll speed (millionths per
/// second, on both axes) and texture. Speed falls as depth grows: the layer at
/// depth 0 scrolls fastest.
pub open spec fn background_spec(i: int) -> (Layer, int, int, Seq<char>) {
    if i == 0 {
        (Layer::B0, 0, 100_000, "backgrounds/bg0.png"@)
    } else if i == 1 {
        (Layer::B1, 10, 10_000, "backgrounds/bg1.png"@)
    } else {
        (Layer::B2, 100, 1_000, "backgrounds/bg2.png"@)
    }
}

/// The `i`-th sprite: its layer, depth, texture, and speeds in units per
/// second on x and y.
pub open spec fn sprite_spec(i: int) -> (Layer, int, Seq<char>, int, int) {
    if i == 0 {
        (Layer::F1, FOREGROUND_BASE + 200, "sprites/baren.png"@, 16, 0)
    } else if i == 1 {
        (Layer::F2, FOREGROUND_BASE + 300, "sprites/ice.png"@, 0, 16)
    } else if i == 2 {
        (Layer::F3, FOREGROUND_BASE + 400, "sprites/lava.png"@, 32, 32)
    } else {
        (Layer::F4, FOREGROUND_BASE + 500, "sprites/terran.png"@, -32, 32)
    }
}

pub open spec fn background_matches(b: BackgroundLayer, i: int) -> bool {
    let s = background_spec(i);
    &&& b.layer == s.0
    &&& b.depth == s.1
    &&& b.parameters.x_speed == s.2
    &&& b.parameters.y_speed == s.2
    &&& b.texture@ == s.3
}

pub open spec fn sprite_matches(f: SpriteLayer, i: int) -> bool {
    let s = sprite_spec(i);
    &&& f.layer == s.0
    &&& f.depth == s.1
    &&& f.texture@ == s.2
    &&& f.movement.toward
    &&& f.movement.x_speed == s.3
    &&& f.movement.y_speed == s.4
}

fn background(layer: Layer, depth: i64, speed: i64, texture: &str) -> (r: BackgroundLayer)
    ensures
        r.layer == layer,
        r.depth == depth,
        r.parameters.x_speed == speed,
        r.parameters.y_speed == speed,
        r.texture@ == texture@,
{
    BackgroundLayer {
        layer,
        depth,
        parameters: ParallaxParameters { x_speed: speed, y_speed: speed },
        texture: texture.to_owned(),
    }
}

fn sprite(layer: Layer, depth: i64, texture: &str, x_speed: i64, y_speed: i64) -> (r: SpriteLayer)
    requires
        -1_000_000 <= depth <= 1_000_000,
    ensures
        r.layer == layer,
        r.depth == FOREGROUND_BASE + depth,
        r.texture@ == texture@,
        r.movement.toward,
        r.movement.x_speed == x_speed,
        r.movement.y_speed == y_speed,
{
    SpriteLayer {
        layer,
        depth: FOREGROUND_BASE + depth,
        texture: texture.to_owned(),
        movement: Movement { toward: true, x_speed, y_speed },
    }
}

/// The layout of the scene built on entering it: the backgrounds B0, B1, B2
/// and the sprites F1 to F4, in that order, with the carrier heading North.
pub fn on_enter() -> (r: SceneLayout)
    ensures
        r.backgrounds@.len() == 3,
        forall|i: int| 0 <= i < 3 ==> background_matches(#[trigger] r.backgrounds@[i], i),
        r.sprites@.len() == 4,
        forall|i: int| 0 <= i < 4 ==> sprite_matches(#[trigger] r.sprites@[i], i),
        r.dolly.direction == Direction::North,
{
    proof {
        reveal_strlit("backgrounds/bg0.png");
        reveal_strlit("backgrounds/bg1.png");
        reveal_strlit("backgrounds/bg2.png");
        reveal_strlit("sprites/baren.png");
        reveal_strlit("sprites/ice.png");
        reveal_strlit("sprites/lava.png");
        reveal_strlit("sprites/terran.png");
    }
    let backgrounds = vec![
        background(Layer::B0, 0, 100_000, "backgrounds/bg0.png"),
        background(Layer::B1, 10, 10_000, "backgrounds/bg1.png"),
        background(Layer::B2, 100, 1_000, "backgrounds/bg2.png"),
    ];
    let sprites = vec![
        sprite(Layer::F1, 200, "sprites/baren.png", 16, 0),
        sprite(Layer::F2, 300, "sprites/ice.png", 0, 16),
        sprite(Layer::F3, 400, "sprites/lava.png", 32, 32),
        sprite(Layer::F4, 500, "sprites/terran.png", -32, 32),
    ];
    let r = SceneLayout { backgrounds, dolly: Dolly::new(), sprites };
    assert(background_matches(r.backgrounds@[0], 0));
    assert(background_matches(r.backgrounds@[1], 1));
    assert(background_matches(r.backgrounds@[2], 2));
    assert(sprite_matches(r.sprites@[0], 0));
    assert(sprite_matches(r.sprites@[1], 1));
    assert(sprite_matches(r.sprites@[2], 2));
    assert(sprite_matches(r.sprites@[3], 3));
    r
}

} // verus!
