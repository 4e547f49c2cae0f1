//! Simulated digital output pin.
//!
//! An [`OutputPin`] holds a boolean level and, once configured, the name
//! of a presentation element and a rule mapping the level to an
//! [`OutputVisual`](crate::visual::OutputVisual). Both are set exactly
//! once; configuring and every write return the freshly rendered payload,
//! which the surrounding shell pushes into the named element. Writing
//! before configuration is a detectable error, as is configuring twice.

use crate::visual::LedColor;
use crate::visual::OutputVisual;
use crate::visual::led_markup;
use vstd::prelude::*;

verus! {

/// A pure rule mapping a boolean level to a visual: either the literal
/// "ON"/"OFF" text, or an indicator lamp of a fixed color at that level.
#[derive(Clone, Copy, PartialEq, Eq, Structural, Debug)]
pub enum RenderRule {
    /// Renders the level as the literal text "ON" or "OFF".
    Text,
    /// Renders the level as an indicator lamp of the given color.
    Indicator(LedColor),
}

impl RenderRule {
    /// The textual payload this rule renders for `level`.
    pub open spec fn spec_payload(self, level: bool) -> Seq<char> {
        match self {
            RenderRule::Text => if level {
                "ON"@
            } else {
                "OFF"@
            },
            RenderRule::Indicator(c) => led_markup(c, level),
        }
    }

    /// Applies this rule to a level, computing the visual afresh.
    pub fn apply(&self, level: bool) -> (v: OutputVisual)
        ensures
            v.spec_render() == self.spec_payload(level),
    {
        match self {
            RenderRule::Text => OutputVisual::from_level(level),
            RenderRule::Indicator(c) => OutputVisual::Led(*c, level),
        }
    }
}

/// The two usage errors an output pin reports instead of corrupting
/// state: writing before configuration, and configuring twice.
#[derive(Clone, Copy, PartialEq, Eq, Structural, Debug)]
pub enum PinError {
    /// A write was attempted before `configure`.
    NotConfigured,
    /// `configure` was called a second time.
    AlreadyConfigured,
}

/// A digital output pin: a boolean level plus a write-once configuration
/// cell holding the target element name and the rendering rule.
pub struct OutputPin {
    /// The current logical level; starts low.
    pub high: bool,
    /// The name of the bound presentation element, set exactly once.
    pub element: Option<String>,
    /// The level-to-visual rule, set exactly once.
    pub transform: Option<RenderRule>,
}

impl OutputPin {
    /// Whether the one-time configuration has been performed.
    pub open spec fn is_configured(self) -> bool {
        self.element is Some && self.transform is Some
    }

    /// Creates an unconfigured pin at the low level.
    pub fn new() -> (p: OutputPin)
        ensures
            !p.high,
            p.element is None,
            p.transform is None,
    {
        OutputPin { high: false, element: None, transform: None }
    }

    /// One-time binding of the target element name and the rendering
    /// rule. Performs the initial write of `false`, returning its payload
    /// so the caller can synchronize the presentation surface with the
    /// pin's state. A second call changes nothing and reports
    /// [`PinError::AlreadyConfigured`].
    pub fn configure(&mut self, element: String, transform: RenderRule) -> (r: Result<
        String,
        PinError,
    >)
        ensures
            old(self).is_configured() ==> {
                &&& r == Err::<String, PinError>(PinError::AlreadyConfigured)
                &&& *final(self) == *old(self)
            },
            !old(self).is_configured() ==> {
                &&& final(self).element == Some(element)
                &&& final(self).transform == Some(transform)
                &&& !final(self).high
                &&& r matches Ok(s) && s@ == transform.spec_payload(false)
            },
    {
        if self.element.is_some() && self.transform.is_some() {
            return Err(PinError::AlreadyConfigured);
        }
        self.element = Some(element);
        self.transform = Some(transform);
        self.set_value(false)
    }

    /// Stores `level` and renders it through the configured rule,
    /// returning the payload to push into the bound element. Before
    /// configuration it changes nothing and reports
    /// [`PinError::NotConfigured`].
    pub fn set_value(&mut self, high: bool) -> (r: Result<String, PinError>)
        ensures
            !old(self).is_configured() ==> {
                &&& r == Err::<String, PinError>(PinError::NotConfigured)
                &&& *final(self) == *old(self)
            },
            old(self).is_configured() ==> {
                &&& final(self).high == high
                &&& final(self).element == old(self).element
                &&& final(self).transform == old(self).transform
                &&& r matches Ok(s) && s@ == old(self).transform->Some_0.spec_payload(high)
            },
    {
        if self.element.is_none() {
            return Err(PinError::NotConfigured);
        }
        match self.transform {
            Some(rule) => {
                self.high = high;
                let visual = rule.apply(high);
                Ok(visual.render())
            },
            None => Err(PinError::NotConfigured),
        }
    }
}

/// Writing is deterministic in `(rule, level)` — so writing the same
/// level twice yields the identical payload both times — and the two
/// levels always render to distinct payloads.
pub proof fn lemma_write_payloads_distinct(rule: RenderRule)
    ensures
        rule.spec_payload(true) != rule.spec_payload(false),
{
    match rule {
        RenderRule::Text => {
            reveal_strlit("ON");
            reveal_strlit("OFF");
            assert(rule.spec_payload(true).len() != rule.spec_payload(false).len());
        },
        RenderRule::Indicator(c) => {
            crate::visual::lemma_indicator_distinct(c);
        },
    }
}

} // verus!
