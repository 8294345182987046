//! Effects pipeline. Effect parameters are stored as named fixed-point
//! values in thousandths.

use vstd::prelude::*;

verus! {

/// Effect kind.
#[derive(Debug, Clone, Copy, PartialEq, Eq, Structural)]
pub enum EffectType {
    /// Color correction.
    ColorCorrection,
    /// Blur effect.
    Blur,
    /// Sharpen effect.
    Sharpen,
    /// Fade in/out.
    Fade,
    /// Cross dissolve.
    CrossDissolve,
    /// Custom shader.
    CustomShader,
}

/// An effect applied to video, with named parameters in thousandths.
#[derive(Debug, Clone)]
pub struct VideoEffect {
    /// Effect identifier.
    pub id: u64,
    /// Effect type.
    pub effect_type: EffectType,
    /// Named parameter values in thousandths.
    pub parameters: Vec<(String, i64)>,
}

/// Ordered chain of effects, handing out fresh ids from its own counter.
pub struct EffectsPipeline {
    effects: Vec<VideoEffect>,
    next_effect_id: u64,
}

impl EffectsPipeline {
    /// The effects in application order.
    pub closed spec fn spec_effects(self) -> Seq<VideoEffect> {
        self.effects@
    }

    /// The next effect id to be handed out.
    pub closed spec fn spec_next_effect_id(self) -> u64 {
        self.next_effect_id
    }

    /// Creates an empty pipeline.
    pub fn new() -> (r: Self)
        ensures
            r.spec_effects().len() == 0,
            r.spec_next_effect_id() == 1,
    {
        EffectsPipeline { effects: Vec::new(), next_effect_id: 1 }
    }

    /// Appends an effect of the given type with no parameters, under a
    /// fresh id, which is returned.
    pub fn add_effect(&mut self, effect_type: EffectType) -> (r: u64)
        requires
            old(self).spec_next_effect_id() < u64::MAX,
        ensures
            r == old(self).spec_next_effect_id(),
            final(self).spec_next_effect_id() == old(self).spec_next_effect_id() + 1,
            final(self).spec_effects() == old(self).spec_effects().push(
                final(self).spec_effects().last(),
            ),
            final(self).spec_effects().last().id == r,
            final(self).spec_effects().last().effect_type == effect_type,
            final(self).spec_effects().last().parameters@.len() == 0,
    {
        let id = self.next_effect_id;
        self.next_effect_id = self.next_effect_id + 1;
        self.effects.push(VideoEffect { id, effect_type, parameters: Vec::new() });
        id
    }

    /// Removes an effect by id, or returns false, changing nothing, when
    /// no effect has the id.
    pub fn remove_effect(&mut self, effect_id: u64) -> (r: bool)
        ensures
            !r ==> *final(self) == *old(self) && forall|i: int|
                0 <= i < old(self).spec_effects().len() ==> (#[trigger] old(
                    self,
                ).spec_effects()[i]).id != effect_id,
            r ==> exists|k: int|
                0 <= k < old(self).spec_effects().len() && old(self).spec_effects()[k].id
                    == effect_id && final(self).spec_effects() == old(self).spec_effects().remove(
                    k,
                ),
            final(self).spec_next_effect_id() == old(self).spec_next_effect_id(),
    {
        let mut i: usize = 0;
        while i < self.effects.len()
            invariant
                0 <= i <= self.effects@.len(),
                forall|k: int| 0 <= k < i ==> (#[trigger] self.effects@[k]).id != effect_id,
                self == old(self),
            decreases self.effects@.len() - i,
        {
            if self.effects[i].id == effect_id {
                self.effects.remove(i);
                return true;
            }
            i = i + 1;
        }
        false
    }

    /// Returns all effects in application order.
    pub fn effects(&self) -> (r: &Vec<VideoEffect>)
        ensures
            r@ == self.spec_effects(),
    {
        &self.effects
    }
}

impl Default for EffectsPipeline {
    /// The default pipeline is empty.
    fn default() -> (r: Self)
        ensures
            r.spec_effects().len() == 0,
            r.spec_next_effect_id() == 1,
    {
        EffectsPipeline::new()
    }
}

} // verus!
