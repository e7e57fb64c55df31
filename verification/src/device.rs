use vstd::prelude::*;
use crate::memory::{Fault, MemoryRead, MemoryWrite};

verus! {

/// The devices that can overlay the bus.
#[derive(Clone, Copy, PartialEq, Eq, Structural, Debug)]
pub enum DeviceKind {
    Cartridge,
    Ppu,
    Apu,
    Joypad,
}

/// A device as it sits on the bus. A mediator steps aside when it is reached
/// while already busy; any other device makes that a fault.
pub struct Device<T> {
    pub inner: T,
    pub mediator: bool,
}

/// The token under which a device is registered for a range of addresses.
#[derive(Clone, Copy, PartialEq, Eq, Structural, Debug)]
pub struct DevHandler {
    pub kind: DeviceKind,
    pub mediator: bool,
}

/// A device that answers bus accesses.
pub trait IOHandler {
    /// What the device holds.
    type State;

    /// Which device this is.
    spec fn device_kind() -> DeviceKind;

    /// What this device holds.
    spec fn state(&self) -> Self::State;

    /// What a device that holds `state` answers to a read of `address`, and
    /// what it holds afterwards.
    spec fn answer_read(state: Self::State, address: u16) -> (
        Result<MemoryRead, Fault>,
        Self::State,
    );

    /// What a device that holds `state` answers to a write of `value` to
    /// `address`, and what it holds afterwards.
    spec fn answer_write(state: Self::State, address: u16, value: u8) -> (
        Result<MemoryWrite, Fault>,
        Self::State,
    );

    fn kind() -> (k: DeviceKind)
        ensures
            k == Self::device_kind(),
    ;

    /// Answers a read of `address`, or reports why the access is fatal.
    fn read(&mut self, address: u16) -> (r: Result<MemoryRead, Fault>)
        ensures
            (r, final(self).state()) == Self::answer_read(old(self).state(), address),
    ;

    /// Answers a write of `value` to `address`, or reports why the access is
    /// fatal.
    fn write(&mut self, address: u16, value: u8) -> (r: Result<MemoryWrite, Fault>)
        ensures
            (r, final(self).state()) == Self::answer_write(old(self).state(), address, value),
    ;
}

impl<T> Device<T> {
    pub fn new(inner: T) -> (r: Self)
        ensures
            r.inner == inner,
            !r.mediator,
    {
        Self::inner(inner, false)
    }

    pub fn mediate(inner: T) -> (r: Self)
        ensures
            r.inner == inner,
            r.mediator,
    {
        Self::inner(inner, true)
    }

    pub fn inner(inner: T, mediator: bool) -> (r: Self)
        ensures
            r.inner == inner,
            r.mediator == mediator,
    {
        Device { inner, mediator }
    }

    pub fn borrow(&self) -> (r: &T)
        ensures
            *r == self.inner,
    {
        &self.inner
    }

    pub fn borrow_mut(&mut self) -> (r: &mut T)
        ensures
            *r == old(self).inner,
            final(self).inner == *final(r),
            final(self).mediator == old(self).mediator,
    {
        &mut self.inner
    }
}

impl<T: IOHandler> Device<T> {
    pub fn handler(&self) -> (h: DevHandler)
        ensures
            h == (DevHandler { kind: T::device_kind(), mediator: self.mediator }),
    {
        DevHandler { kind: T::kind(), mediator: self.mediator }
    }
}

} // verus!
