//! Controllers that drive several outputs as one.
//!
//! A controller is itself an output: its duty is the tuple of the duties of
//! its parts, and it counts as switched on when every part is.

use vstd::prelude::*;
use crate::pwm::PwmPin;

verus! {

/// Three outputs that drive the red, green and blue parts of one light.
pub struct RgbController<R, G, B> {
    red: R,
    green: G,
    blue: B,
}

impl<R, G, B> View for RgbController<R, G, B> {
    type V = (R, G, B);

    /// The outputs for red, green and blue, in that order.
    closed spec fn view(&self) -> (R, G, B) {
        (self.red, self.green, self.blue)
    }
}

impl<R: PwmPin, G: PwmPin, B: PwmPin> PwmPin for RgbController<R, G, B> {
    type Duty = (R::Duty, G::Duty, B::Duty);

    open spec fn enabled(&self) -> bool {
        self@.0.enabled() && self@.1.enabled() && self@.2.enabled()
    }

    open spec fn duty(&self) -> Self::Duty {
        (self@.0.duty(), self@.1.duty(), self@.2.duty())
    }

    open spec fn max_duty(&self) -> Self::Duty {
        (self@.0.max_duty(), self@.1.max_duty(), self@.2.max_duty())
    }

    /// Switches all three outputs off.
    fn disable(&mut self)
        ensures
            !final(self)@.0.enabled(),
            !final(self)@.1.enabled(),
            !final(self)@.2.enabled(),
    {
        self.red.disable();
        self.green.disable();
        self.blue.disable();
    }

    /// Switches all three outputs on.
    fn enable(&mut self) {
        self.red.enable();
        self.green.enable();
        self.blue.enable();
    }

    /// Reads the duties of red, green and blue.
    fn get_duty(&self) -> (duty: Self::Duty) {
        (self.red.get_duty(), self.green.get_duty(), self.blue.get_duty())
    }

    /// Reads the largest duties of red, green and blue.
    fn get_max_duty(&self) -> (duty: Self::Duty) {
        (self.red.get_max_duty(), self.green.get_max_duty(), self.blue.get_max_duty())
    }

    /// Sets the duties of red, green and blue.
    fn set_duty(&mut self, duty: Self::Duty) {
        let (r, g, b) = duty;
        self.red.set_duty(r);
        self.green.set_duty(g);
        self.blue.set_duty(b);
    }
}

impl<T, R: PwmPin<Duty = T>, G: PwmPin<Duty = T>, B: PwmPin<Duty = T>> RgbController<R, G, B> {
    /// Makes a controller of the outputs for red, green and blue, in that
    /// order, and leaves each as it is.
    pub fn new(rgb_pwm: (R, G, B)) -> (controller: RgbController<R, G, B>)
        ensures
            controller@ == rgb_pwm,
    {
        RgbController { red: rgb_pwm.0, green: rgb_pwm.1, blue: rgb_pwm.2 }
    }

    /// Sets the three duties from three levels of one type.
    pub fn set_color_rgb(&mut self, red_level: T, green_level: T, blue_level: T)
        ensures
            final(self).duty() == (red_level, green_level, blue_level),
            final(self).enabled() == old(self).enabled(),
            final(self).max_duty() == old(self).max_duty(),
    {
        self.set_duty((red_level, green_level, blue_level));
    }
}

/// Two outputs that drive the left and the right wheel.
pub struct Wheels<L, R> {
    left: L,
    right: R,
}

impl<L, R> View for Wheels<L, R> {
    type V = (L, R);

    /// The outputs for the left and the right wheel, in that order.
    closed spec fn view(&self) -> (L, R) {
        (self.left, self.right)
    }
}

impl<T, L: PwmPin<Duty = T>, R: PwmPin<Duty = T>> Wheels<L, R> {
    /// Makes a controller of the outputs for the left and the right wheel, in
    /// that order, and leaves each as it is.
    pub fn new(wheel_pwm: (L, R)) -> (wheels: Wheels<L, R>)
        ensures
            wheels@ == wheel_pwm,
    {
        Wheels { left: wheel_pwm.0, right: wheel_pwm.1 }
    }
}

impl<L: PwmPin, R: PwmPin> PwmPin for Wheels<L, R> {
    type Duty = (L::Duty, R::Duty);

    open spec fn enabled(&self) -> bool {
        self@.0.enabled() && self@.1.enabled()
    }

    open spec fn duty(&self) -> Self::Duty {
        (self@.0.duty(), self@.1.duty())
    }

    open spec fn max_duty(&self) -> Self::Duty {
        (self@.0.max_duty(), self@.1.max_duty())
    }

    /// Switches both outputs off.
    fn disable(&mut self)
        ensures
            !final(self)@.0.enabled(),
            !final(self)@.1.enabled(),
    {
        self.left.disable();
        self.right.disable();
    }

    /// Switches both outputs on.
    fn enable(&mut self) {
        self.left.enable();
        self.right.enable();
    }

    /// Reads the duties of the left and the right wheel.
    fn get_duty(&self) -> (duty: Self::Duty) {
        (self.left.get_duty(), self.right.get_duty())
    }

    /// Reads the largest duties of the left and the right wheel.
    fn get_max_duty(&self) -> (duty: Self::Duty) {
        (self.left.get_max_duty(), self.right.get_max_duty())
    }

    /// Sets the duties of the left and the right wheel.
    fn set_duty(&mut self, duty: Self::Duty) {
        let (l, r) = duty;
        self.left.set_duty(l);
        self.right.set_duty(r);
    }
}

} // verus!
