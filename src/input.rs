use vstd::prelude::*;

verus! {

/// The keys bound to layer toggles.
#[derive(Clone, Copy, Debug, PartialEq, Eq, Structural)]
pub enum Key {
    Key1,
    Key2,
    Key3,
    Key4,
    Q,
    W,
    E,
}

/// The seven layers of the scene: four foreground sprites and three
/// backgrounds.
#[derive(Clone, Copy, Debug, PartialEq, Eq, Structural)]
pub enum Layer {
    F1,
    F2,
    F3,
    F4,
    B0,
    B1,
    B2,
}

/// The key that toggles a layer: digits 1 to 4 for the foreground layers 1 to
/// 4, and Q, W, E for the background layers 0, 1, 2.
pub open spec fn key_of(layer: Layer) -> Key {
    match layer {
        Layer::F1 => Key::Key1,
        Layer::F2 => Key::Key2,
        Layer::F3 => Key::Key3,
        Layer::F4 => Key::Key4,
        Layer::B0 => Key::Q,
        Layer::B1 => Key::W,
        Layer::B2 => Key::E,
    }
}

/// The layer that a key toggles.
pub fn layer_for_key(key: Key) -> (r: Layer)
    ensures
        key_of(r) == key,
{
    match key {
        Key::Key1 => Layer::F1,
        Key::Key2 => Layer::F2,
        Key::Key3 => Layer::F3,
        Key::Key4 => Layer::F4,
        Key::Q => Layer::B0,
        Key::W => Layer::B1,
        Key::E => Layer::B2,
    }
}

/// The scene nodes of the seven layers, each held by the bits of its entity id.
#[derive(Clone, Copy, Debug, PartialEq, Eq, Structural)]
pub struct LayerEntities {
    pub b2: u64,
    pub b1: u64,
    pub b0: u64,
    pub f1: u64,
    pub f2: u64,
    pub f3: u64,
    pub f4: u64,
}

impl LayerEntities {
    pub open spec fn node(self, layer: Layer) -> u64 {
        match layer {
            Layer::F1 => self.f1,
            Layer::F2 => self.f2,
            Layer::F3 => self.f3,
            Layer::F4 => self.f4,
            Layer::B0 => self.b0,
            Layer::B1 => self.b1,
            Layer::B2 => self.b2,
        }
    }

    /// The node that shows `layer`.
    pub fn entity(&self, layer: Layer) -> (r: u64)
        ensures
            r == self.node(layer),
    {
        match layer {
            Layer::F1 => self.f1,
            Layer::F2 => self.f2,
            Layer::F3 => self.f3,
            Layer::F4 => self.f4,
            Layer::B0 => self.b0,
            Layer::B1 => self.b1,
            Layer::B2 => self.b2,
        }
    }
}

/// The visibility of each layer's node: `None` where the node is absent.
#[derive(Clone, Copy, Debug, PartialEq, Eq, Structural)]
pub struct LayerVisibility {
    pub b2: Option<bool>,
    pub b1: Option<bool>,
    pub b0: Option<bool>,
    pub f1: Option<bool>,
    pub f2: Option<bool>,
    pub f3: Option<bool>,
    pub f4: Option<bool>,
}

/// A flag flipped, and an absent node left absent.
pub open spec fn flipped(v: Option<bool>) -> Option<bool> {
    match v {
        Some(b) => Some(!b),
        None => None,
    }
}

impl LayerVisibility {
    pub open spec fn of(self, layer: Layer) -> Option<bool> {
        match layer {
            Layer::F1 => self.f1,
            Layer::F2 => self.f2,
            Layer::F3 => self.f3,
            Layer::F4 => self.f4,
            Layer::B0 => self.b0,
            Layer::B1 => self.b1,
            Layer::B2 => self.b2,
        }
    }

    /// The visibility of `layer`, `None` where its node is absent.
    pub fn get(&self, layer: Layer) -> (r: Option<bool>)
        ensures
            r == self.of(layer),
    {
        match layer {
            Layer::F1 => self.f1,
            Layer::F2 => self.f2,
            Layer::F3 => self.f3,
            Layer::F4 => self.f4,
            Layer::B0 => self.b0,
            Layer::B1 => self.b1,
            Layer::B2 => self.b2,
        }
    }

    /// The visibility with `layer` flipped.
    pub open spec fn toggled(self, layer: Layer) -> LayerVisibility {
        match layer {
            Layer::F1 => LayerVisibility { f1: flipped(self.f1), ..self },
            Layer::F2 => LayerVisibility { f2: flipped(self.f2), ..self },
            Layer::F3 => LayerVisibility { f3: flipped(self.f3), ..self },
            Layer::F4 => LayerVisibility { f4: flipped(self.f4), ..self },
            Layer::B0 => LayerVisibility { b0: flipped(self.b0), ..self },
            Layer::B1 => LayerVisibility { b1: flipped(self.b1), ..self },
            Layer::B2 => LayerVisibility { b2: flipped(self.b2), ..self },
        }
    }

    /// Flips the visibility of one layer; an absent node is left as it is.
    pub fn toggle(&mut self, layer: Layer)
        ensures
            *final(self) == old(self).toggled(layer),
            forall|l: Layer|
                #![auto]
                final(self).of(l) == if l == layer {
                    flipped(old(self).of(l))
                } else {
                    old(self).of(l)
                },
    {
        match layer {
            Layer::F1 => self.f1 = flip(self.f1),
            Layer::F2 => self.f2 = flip(self.f2),
            Layer::F3 => self.f3 = flip(self.f3),
            Layer::F4 => self.f4 = flip(self.f4),
            Layer::B0 => self.b0 = flip(self.b0),
            Layer::B1 => self.b1 = flip(self.b1),
            Layer::B2 => self.b2 = flip(self.b2),
        }
    }
}

fn flip(v: Option<bool>) -> (r: Option<bool>)
    ensures
        r == flipped(v),
{
    match v {
        Some(b) => Some(!b),
        None => None,
    }
}

/// The visibility after one frame whose just-pressed keys are `pressed`: each
/// layer whose key was pressed is flipped once, the others are kept.
pub open spec fn after_input(v: LayerVisibility, pressed: Seq<Key>) -> LayerVisibility {
    LayerVisibility {
        b2: if pressed.contains(Key::E) { flipped(v.b2) } else { v.b2 },
        b1: if pressed.contains(Key::W) { flipped(v.b1) } else { v.b1 },
        b0: if pressed.contains(Key::Q) { flipped(v.b0) } else { v.b0 },
        f1: if pressed.contains(Key::Key1) { flipped(v.f1) } else { v.f1 },
        f2: if pressed.contains(Key::Key2) { flipped(v.f2) } else { v.f2 },
        f3: if pressed.contains(Key::Key3) { flipped(v.f3) } else { v.f3 },
        f4: if pressed.contains(Key::Key4) { flipped(v.f4) } else { v.f4 },
    }
}

/// Whether `key` is among `pressed`.
pub fn is_pressed(pressed: &Vec<Key>, key: Key) -> (r: bool)
    ensures
        r == pressed@.contains(key),
{
    let mut i: usize = 0;
    while i < pressed.len()
        invariant
            i <= pressed@.len(),
            forall|j: int| 0 <= j < i ==> pressed@[j] != key,
        decreases pressed@.len() - i,
    {
        if pressed[i] == key {
            return true;
        }
        i = i + 1;
    }
    false
}

/// Flips the visibility of each layer whose key was just pressed, once per
/// frame; layers whose node is absent are left absent.
pub fn handle_input(pressed: &Vec<Key>, visibility: &mut LayerVisibility)
    ensures
        *final(visibility) == after_input(*old(visibility), pressed@),
        forall|l: Layer|
            #![auto]
            final(visibility).of(l) == if pressed@.contains(key_of(l)) {
                flipped(old(visibility).of(l))
            } else {
                old(visibility).of(l)
            },
{
    if is_pressed(pressed, Key::Key1) {
        visibility.toggle(Layer::F1);
    }
    if is_pressed(pressed, Key::Key2) {
        visibility.toggle(Layer::F2);
    }
    if is_pressed(pressed, Key::Key3) {
        visibility.toggle(Layer::F3);
    }
    if is_pressed(pressed, Key::Key4) {
        visibility.toggle(Layer::F4);
    }
    if is_pressed(pressed, Key::Q) {
        visibility.toggle(Layer::B0);
    }
    if is_pressed(pressed, Key::W) {
        visibility.toggle(Layer::B1);
    }
    if is_pressed(pressed, Key::E) {
        visibility.toggle(Layer::B2);
    }
}

/// Pressing the same keys on two frames leaves every layer as it was.
pub proof fn lemma_toggle_twice(v: LayerVisibility, pressed: Seq<Key>)
    ensures
        after_input(after_input(v, pressed), pressed) == v,
{
}

} // verus!
