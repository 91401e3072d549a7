use crate::config::Config;
use crate::device_display::interface::DeviceDisplay;
use crate::error::DeviceError;
use crate::smart_door::kernel::{effects_at_boot, init, step, transition};
use crate::smart_door::model::{model_at_boot, Effect, Model, Msg};
use crate::smart_door::render::{render, shown};
use vstd::prelude::*;

verus! {

/// The controller as its event loop holds it: the settings, the model of the
/// moment, and the display that shows it.
pub struct SmartDoor<P: DeviceDisplay> {
    pub config: Config,
    pub model: Model,
    pub device_display: P,
}

impl<P: DeviceDisplay> SmartDoor<P> {
    /// The controller at boot, and the subscriptions to start.
    pub fn new(config: Config, device_display: P) -> (r: (SmartDoor<P>, Vec<Effect>))
        ensures
            r.0.config == config,
            r.0.device_display == device_display,
            r.0.model@ == model_at_boot(),
            r.1.deep_view() == effects_at_boot(),
    {
        let (model, effects) = init();
        (SmartDoor { config, model, device_display }, effects)
    }

    /// Makes the display show the model of the moment.
    pub fn render(&mut self) -> (r: Result<(), DeviceError>)
        ensures
            old(self).device_display.never_fails() ==> r is Ok,
            r is Ok ==> final(self).device_display.rows() == shown(
                old(self).config@,
                old(self).model@,
            ),
            final(self).device_display.never_fails() == old(self).device_display.never_fails(),
            final(self).config == old(self).config,
            final(self).model == old(self).model,
    {
        render(&mut self.device_display, &self.model, &self.config)
    }

    /// One turn of the event loop: the model takes the message in, the
    /// display is made to show the new model, and the effects to start come
    /// back. A display that fails does not hold the controller up: the
    /// failure comes back beside the effects, and the next turn renders
    /// again.
    pub fn handle(self, msg: Msg) -> (r: (SmartDoor<P>, Vec<Effect>, Result<(), DeviceError>))
        ensures
            r.0.config == self.config,
            r.0.model@ == step(self.config@, self.model@, msg@).0,
            r.1.deep_view() == step(self.config@, self.model@, msg@).1,
            self.device_display.never_fails() ==> r.2 is Ok,
            r.2 is Ok ==> r.0.device_display.rows() == shown(r.0.config@, r.0.model@),
            r.0.device_display.never_fails() == self.device_display.never_fails(),
    {
        let SmartDoor { config, model, device_display } = self;
        let mut device_display = device_display;
        let (model, effects) = transition(&config, model, msg);
        let rendered = render(&mut device_display, &model, &config);
        (SmartDoor { config, model, device_display }, effects, rendered)
    }
}

} // verus!
