//! SCSI over UAS with a Bulk Only Transport fall-back

use crate::subclass::poll::{Phase, PollNextView, PollStepView, ScsiView};
use crate::subclass::scsi::{PollNext, PollStep, Scsi, SUBCLASS_SCSI};
use crate::transport::bbb::BulkOnly;
use crate::transport::model::{BulkOnlyError, BulkOnlyView};
use crate::transport::uas::TRANSPORT_UAS;
use crate::usb::{Descriptor, Effect, EndpointAddress, InterfaceNumber, Pipe, Request};
use crate::CLASS_MASS_STORAGE;
use vstd::prelude::*;

verus! {

/// State of [`ScsiUas`] apart from the UAS engine
#[verifier::ext_equal]
pub struct ScsiUasView {
    pub inner: ScsiView,
    pub active_alt: u8,
}

impl ScsiUasView {
    /// Everything is reset and `alt` is active
    pub open spec fn switched(self, alt: u8) -> ScsiUasView {
        ScsiUasView { inner: self.inner.after_reset(), active_alt: alt }
    }
}

/// What switching to an alternate setting does to the endpoints and the engine
pub open spec fn switch_effects() -> Seq<Effect> {
    seq![Effect::UnstallIn, Effect::UnstallOut, Effect::ResetUas]
}

/// The descriptors of the UAS alternate setting: every endpoint is followed by its
/// pipe usage; the data pipes come first
pub open spec fn uas_descriptors(interface: InterfaceNumber) -> Seq<Descriptor> {
    seq![
        Descriptor::Interface {
            number: interface,
            alternate: 1,
            class: CLASS_MASS_STORAGE,
            subclass: SUBCLASS_SCSI,
            protocol: TRANSPORT_UAS,
        },
        Descriptor::Endpoint { pipe: Pipe::DataIn },
        Descriptor::PipeUsage { id: 3 },
        Descriptor::Endpoint { pipe: Pipe::DataOut },
        Descriptor::PipeUsage { id: 4 },
        Descriptor::Endpoint { pipe: Pipe::Status },
        Descriptor::PipeUsage { id: 2 },
        Descriptor::Endpoint { pipe: Pipe::Command },
        Descriptor::PipeUsage { id: 1 },
    ]
}

/// SCSI Mass Storage class that exposes both BOT (alt 0) and UAS (alt 1)
///
/// The BOT transport owns the two data endpoints, bulk IN and bulk OUT, which both
/// settings share. The UAS engine owns the command and the status endpoint.
///
/// * **Alt 0 (BOT)** - `poll_transfer` drives the BOT class; the engine is idle
/// * **Alt 1 (UAS)** - `poll_transfer` does nothing; the caller drives the engine
///   that `uas` gives
///
/// Both are reset on every switch.
pub struct ScsiUas<Engine> {
    inner: Scsi<BulkOnly>,
    uas: Engine,
    active_alt: u8,
}

impl<Engine> View for ScsiUas<Engine> {
    type V = ScsiUasView;

    closed spec fn view(&self) -> ScsiUasView {
        ScsiUasView { inner: self.inner@, active_alt: self.active_alt }
    }
}

impl<Engine> ScsiUas<Engine> {
    pub closed spec fn wf(self) -> bool {
        &&& self.inner.wf()
        &&& self.active_alt <= 1
    }

    /// In every consistent class the invariant of the BOT class holds and one of the
    /// two settings is active.
    pub proof fn inv_holds(self)
        requires
            self.wf(),
        ensures
            self@.inner.inv(),
            self@.active_alt <= 1,
    {
        self.inner.inv_holds();
    }

    /// The UAS engine
    pub closed spec fn engine(self) -> Engine {
        self.uas
    }

    /// Makes a class with the BOT setting active
    ///
    /// # Errors
    /// Those of [`Scsi::new`]
    pub fn new(
        interface: InterfaceNumber,
        in_ep: EndpointAddress,
        out_ep: EndpointAddress,
        packet_size: u16,
        max_lun: u8,
        buf: Vec<u8>,
        uas: Engine,
    ) -> (r: Result<ScsiUas<Engine>, BulkOnlyError>)
        ensures
            match r {
                Ok(class) => {
                    &&& BulkOnly::config_error(packet_size, max_lun, buf@.len()) is None
                    &&& class.wf()
                    &&& class.engine() == uas
                    &&& class@ == (ScsiUasView {
                        inner: ScsiView {
                            interface,
                            transport: BulkOnlyView::initial(
                                packet_size,
                                max_lun,
                                buf@.len(),
                                in_ep,
                                out_ep,
                            ),
                            phase: Phase::Idle,
                            transfers: false,
                        },
                        active_alt: 0,
                    })
                },
                Err(e) => BulkOnly::config_error(packet_size, max_lun, buf@.len()) == Some(e),
            },
    {
        match Scsi::<BulkOnly>::new(interface, in_ep, out_ep, packet_size, max_lun, buf) {
            Ok(inner) => Ok(ScsiUas { inner, uas, active_alt: 0 }),
            Err(e) => Err(e),
        }
    }

    /// Starts to drive the BOT data path if it is active, see [`Scsi::poll_transfer`]
    ///
    /// The rest of the poll goes through [`ScsiUas::inner`].
    pub fn poll_transfer(&mut self) -> (step: PollStep)
        requires
            old(self).wf(),
        ensures
            final(self).wf(),
            final(self).engine() == old(self).engine(),
            final(self)@.active_alt == old(self)@.active_alt,
            (final(self)@.inner, step@) == (if old(self)@.active_alt == 0 {
                old(self)@.inner.poll_step(true)
            } else {
                (
                    old(self)@.inner,
                    PollStepView {
                        effects: Seq::empty(),
                        next: PollNextView::Done { result: Ok(()) },
                    },
                )
            }),
    {
        if self.active_alt == 0 {
            self.inner.poll_transfer()
        } else {
            let step = PollStep { effects: Vec::new(), next: PollNext::Done { result: Ok(()) } };
            assert(step@.effects =~= Seq::<Effect>::empty());
            step
        }
    }

    /// The BOT class
    pub fn inner(&mut self) -> (inner: &mut Scsi<BulkOnly>)
        requires
            old(self).wf(),
        ensures
            *inner == old(self).bot(),
            inner.wf(),
            inner@ == old(self)@.inner,
            (*final(inner)).wf() ==> final(self).wf(),
            final(self)@ == (ScsiUasView { inner: (*final(inner))@, ..old(self)@ }),
            final(self).engine() == old(self).engine(),
    {
        &mut self.inner
    }

    /// The BOT class
    pub closed spec fn bot(self) -> Scsi<BulkOnly> {
        self.inner
    }

    /// The currently active alternate setting (0 = BOT, 1 = UAS)
    pub fn active_alt(&self) -> (alt: u8)
        requires
            self.wf(),
        ensures
            alt == self@.active_alt,
            alt <= 1,
    {
        self.active_alt
    }

    /// The UAS engine, to be driven by the caller while alt 1 is active
    pub fn uas(&mut self) -> (engine: &mut Engine)
        ensures
            *engine == old(self).engine(),
            final(self).engine() == *final(engine),
            final(self)@ == old(self)@,
            old(self).wf() ==> final(self).wf(),
    {
        &mut self.uas
    }

    /// Addresses of the shared data pipes as `(bulk IN, bulk OUT)`
    ///
    /// These endpoints are listed in both alternate settings. On a switch the
    /// firmware must cancel any transfers that the previous setting left queued on
    /// them.
    pub fn data_pipe_addresses(&self) -> (r: (EndpointAddress, EndpointAddress))
        ensures
            r == (self@.inner.transport.in_ep, self@.inner.transport.out_ep),
    {
        self.inner.data_endpoints()
    }

    /// The descriptors of both alternate settings, those of [`Scsi`] first
    pub fn get_configuration_descriptors(&self) -> (descriptors: Vec<Descriptor>)
        ensures
            descriptors@ == crate::subclass::scsi::bulk_only_descriptors(self@.inner.interface)
                + uas_descriptors(self@.inner.interface),
    {
        let mut descriptors = self.inner.get_configuration_descriptors();
        let ghost alt0 = descriptors@;
        let number = self.inner.interface();
        let mut alt1: Vec<Descriptor> = Vec::new();
        alt1.push(
            Descriptor::Interface {
                number,
                alternate: 1,
                class: CLASS_MASS_STORAGE,
                subclass: SUBCLASS_SCSI,
                protocol: TRANSPORT_UAS,
            },
        );
        alt1.push(Descriptor::Endpoint { pipe: Pipe::DataIn });
        alt1.push(Descriptor::PipeUsage { id: 3 });
        alt1.push(Descriptor::Endpoint { pipe: Pipe::DataOut });
        alt1.push(Descriptor::PipeUsage { id: 4 });
        alt1.push(Descriptor::Endpoint { pipe: Pipe::Status });
        alt1.push(Descriptor::PipeUsage { id: 2 });
        alt1.push(Descriptor::Endpoint { pipe: Pipe::Command });
        alt1.push(Descriptor::PipeUsage { id: 1 });
        assert(alt1@ =~= uas_descriptors(number));
        descriptors.append(&mut alt1);
        descriptors
    }

    /// The bus was reset: both settings start anew and BOT is active
    pub fn reset(&mut self) -> (effects: Vec<Effect>)
        requires
            old(self).wf(),
        ensures
            final(self).wf(),
            final(self)@ == old(self)@.switched(0),
            final(self).engine() == old(self).engine(),
            effects@ == switch_effects(),
    {
        self.switch(0)
    }

    /// Resets both settings and makes `alt` the active one
    fn switch(&mut self, alt: u8) -> (effects: Vec<Effect>)
        requires
            old(self).wf(),
            alt <= 1,
        ensures
            final(self).wf(),
            final(self)@ == old(self)@.switched(alt),
            final(self).engine() == old(self).engine(),
            effects@ == switch_effects(),
    {
        let mut effects = self.inner.reset();
        effects.push(Effect::ResetUas);
        assert(effects@ =~= switch_effects());
        self.active_alt = alt;
        effects
    }

    /// Answers a control request to the host, see [`BulkOnly::control_in`]
    pub fn control_in(&self, req: &Request) -> (answer: Option<u8>)
        ensures
            answer == self@.inner.transport.control_answer(*req),
    {
        self.inner.control_in(req)
    }

    /// Whether to accept a control request from the host, see [`BulkOnly::control_out`]
    ///
    /// An accepted one is followed by [`Scsi::halt_cleared`] of [`ScsiUas::inner`].
    pub fn control_out(&self, req: &Request) -> (accept: bool)
        ensures
            accept == self@.inner.transport.clears_halt(*req),
    {
        self.inner.control_out(req)
    }

    /// The active alternate setting of `interface`, if it is the one of the class
    pub fn get_alt_setting(&self, interface: InterfaceNumber) -> (alt: Option<u8>)
        ensures
            alt == (if interface == self@.inner.interface {
                Some(self@.active_alt)
            } else {
                None
            }),
    {
        if interface == self.inner.interface() {
            Some(self.active_alt)
        } else {
            None
        }
    }

    /// Switches `interface` to the setting `alternative`
    ///
    /// Gives the effects of the switch, or nothing if the interface is not the one of
    /// the class or the setting is neither 0 nor 1.
    pub fn set_alt_setting(&mut self, interface: InterfaceNumber, alternative: u8) -> (accepted:
        Option<Vec<Effect>>)
        requires
            old(self).wf(),
        ensures
            final(self).wf(),
            final(self).engine() == old(self).engine(),
            match accepted {
                Some(effects) => {
                    &&& interface == old(self)@.inner.interface
                    &&& alternative <= 1
                    &&& final(self)@ == old(self)@.switched(alternative)
                    &&& effects@ == switch_effects()
                },
                None => {
                    &&& interface != old(self)@.inner.interface || alternative > 1
                    &&& final(self)@ == old(self)@
                },
            },
    {
        if interface != self.inner.interface() {
            return None;
        }
        if alternative > 1 {
            return None;
        }
        Some(self.switch(alternative))
    }
}

} // verus!
