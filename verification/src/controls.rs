//! What an application asks of a running stream: where playback is, how
//! late it is, how loud it is, and which devices it is connected to.

use crate::channels::{balanceable, ChannelMap};
use crate::error::Error;
use crate::stream::{Device, Stream, VolumeRoute};
use vstd::prelude::*;

verus! {

impl Stream {
    /// The position of playback in frames, for the playback time `time` in
    /// microseconds; `time` is `None` where the transport could not tell
    /// it. The time is turned into bytes and the bytes into frames.
    pub open spec fn spec_position(self, time: Option<u64>) -> Result<u64, Error> {
        match (self.output_stream, time) {
            (Some(s), Some(usec)) => Ok(
                (s.sample_spec.spec_usec_to_bytes(usec) / (s.sample_spec.spec_frame_size()
                    as int)) as u64,
            ),
            _ => Err(Error::Generic),
        }
    }

    /// The position of playback, in frames: the frames played in the
    /// time, as long as their count and their bytes fit into 64 bits. It
    /// fails on a stream that does not play and where the transport could
    /// not tell its time.
    pub fn position(&self, time: Option<u64>) -> (r: Result<u64, Error>)
        requires
            self.wf(),
        ensures
            r == self.spec_position(time),
            r is Ok <==> self.output_stream is Some && time is Some,
            (self.output_stream matches Some(s) && time matches Some(usec) && usec
                * s.sample_spec.rate <= u64::MAX && (usec * s.sample_spec.rate / 1_000_000)
                * s.sample_spec.spec_frame_size() <= u64::MAX) ==> r == Ok::<u64, Error>(
                (time.unwrap() * self.output_stream.unwrap().sample_spec.rate / 1_000_000) as u64,
            ),
    {
        match (self.output_stream, time) {
            (Some(s), Some(usec)) => {
                let bytes: u64 = s.sample_spec.usec_to_bytes(usec);
                let frame_size: u64 = s.sample_spec.frame_size() as u64;
                proof {
                    let frames = usec * s.sample_spec.rate / 1_000_000;
                    let size = s.sample_spec.spec_frame_size() as int;
                    assert(0 <= usec * s.sample_spec.rate) by (nonlinear_arith);
                    if usec * s.sample_spec.rate <= u64::MAX && frames * size <= u64::MAX {
                        vstd::arithmetic::div_mod::lemma_div_multiples_vanish(frames, size);
                    }
                }
                Ok(bytes / frame_size)
            },
            _ => Err(Error::Generic),
        }
    }

    /// The latency of playback in frames, for the latency `latency` in
    /// microseconds; `latency` is `None` where the transport could not
    /// tell it. The frames are counted in 32 bits.
    pub open spec fn spec_latency(self, latency: Option<u64>) -> Result<u32, Error> {
        match (self.output_stream, latency) {
            (Some(s), Some(usec)) => Ok(
                ((usec * s.sample_spec.rate / 1_000_000) % 0x1_0000_0000) as u32,
            ),
            _ => Err(Error::Generic),
        }
    }

    /// The latency of playback, in frames. It fails on a stream that does
    /// not play and where the transport could not tell its latency.
    pub fn latency(&self, latency: Option<u64>) -> (r: Result<u32, Error>)
        ensures
            r == self.spec_latency(latency),
            r is Ok <==> self.output_stream is Some && latency is Some,
    {
        match (self.output_stream, latency) {
            (Some(s), Some(usec)) => {
                let rate: u32 = s.sample_spec.rate;
                assert((usec as u128) * (rate as u128) <= u128::MAX) by (nonlinear_arith)
                    requires
                        usec <= u64::MAX,
                        rate <= u32::MAX,
                ;
                let wide: u128 = (usec as u128) * (rate as u128) / 1_000_000;
                let frames: u32 = #[verifier::truncate]
                (wide as u32);
                assert(frames == wide % 0x1_0000_0000) by (bit_vector)
                    requires
                        frames == wide as u32,
                ;
                Ok(frames)
            },
            _ => Err(Error::Generic),
        }
    }

    /// The engine after `set_volume`.
    pub open spec fn after_set_volume(self, volume: u32, flat_volume: bool) -> Stream {
        if self.output_stream is Some && flat_volume {
            Stream { volume, ..self }
        } else {
            self
        }
    }

    /// Where `set_volume` sends a volume.
    pub open spec fn volume_route(self, flat_volume: bool) -> Result<VolumeRoute, Error> {
        match self.output_stream {
            None => Err(Error::Generic),
            Some(s) => if flat_volume {
                Ok(VolumeRoute::Software)
            } else {
                Ok(VolumeRoute::Server { channels: s.sample_spec.channels })
            },
        }
    }

    /// Sets the volume of playback to `volume`, the bits of a 32 bit
    /// floating point number. Where the server keeps flat volumes
    /// (`flat_volume`), the engine keeps the volume as its gain; otherwise
    /// the volume is for the server, and `volume_acknowledged` tells the
    /// outcome. It fails on a stream that does not play.
    pub fn set_volume(&mut self, volume: u32, flat_volume: bool) -> (r: Result<VolumeRoute, Error>)
        ensures
            *final(self) == old(self).after_set_volume(volume, flat_volume),
            r == old(self).volume_route(flat_volume),
    {
        match self.output_stream {
            None => Err(Error::Generic),
            Some(s) => {
                if flat_volume {
                    self.volume = volume;
                    Ok(VolumeRoute::Software)
                } else {
                    Ok(VolumeRoute::Server { channels: s.sample_spec.channels })
                }
            },
        }
    }

    /// Decides whether a balance can be set on playback, whose channel map
    /// is `map`. On `Ok` the caller reads the volumes of the channels
    /// from the server, shifts them to the balance and sets them, and
    /// `panning_acknowledged` tells the outcome. It fails on a stream that
    /// does not play and on a map without a left and a right position.
    pub fn set_panning(&self, map: &ChannelMap) -> (r: Result<(), Error>)
        ensures
            r is Ok <==> self.output_stream is Some && balanceable(map@),
            r matches Err(e) ==> e == Error::Generic,
    {
        if self.output_stream.is_none() {
            return Err(Error::Generic);
        }
        if !map.can_balance() {
            return Err(Error::Generic);
        }
        Ok(())
    }

    /// The names of the devices of a stream's directions. `supported`
    /// tells whether the protocol can name devices at all; each name is
    /// what the transport of that direction told, `None` where it could
    /// not. It fails with `NotSupported` where the protocol cannot, and
    /// with `Generic` where a direction in use has no name. A direction
    /// that is not in use has no name in the result.
    pub fn current_device(
        &self,
        supported: bool,
        input_name: Option<String>,
        output_name: Option<String>,
    ) -> (r: Result<Device, Error>)
        ensures
            !supported ==> r == Err::<Device, Error>(Error::NotSupported),
            supported && ((self.input_stream is Some && input_name is None) || (
            self.output_stream is Some && output_name is None)) ==> r == Err::<Device, Error>(
                Error::Generic,
            ),
            supported && (self.input_stream is Some ==> input_name is Some) && (
            self.output_stream is Some ==> output_name is Some) ==> (r matches Ok(dev) && dev.input_name
                == (if self.input_stream is Some {
                input_name
            } else {
                None
            }) && dev.output_name == (if self.output_stream is Some {
                output_name
            } else {
                None
            })),
    {
        if !supported {
            return Err(Error::NotSupported);
        }
        let mut dev = Device { input_name: None, output_name: None };
        if self.input_stream.is_some() {
            match input_name {
                Some(name) => {
                    dev.input_name = Some(name);
                },
                None => {
                    return Err(Error::Generic);
                },
            }
        }
        if self.output_stream.is_some() {
            match output_name {
                Some(name) => {
                    dev.output_name = Some(name);
                },
                None => {
                    return Err(Error::Generic);
                },
            }
        }
        Ok(dev)
    }

    /// The outcome of `set_volume` once the volume is where it goes. A
    /// volume that the engine keeps is set; one for the server is set if
    /// the server acknowledged the request, which `acknowledged` tells.
    /// Nothing is tried again.
    pub fn volume_acknowledged(route: VolumeRoute, acknowledged: bool) -> (r: Result<(), Error>)
        ensures
            r is Ok <==> (route is Software || acknowledged),
            r matches Err(e) ==> e == Error::Generic,
    {
        match route {
            VolumeRoute::Software => Ok(()),
            VolumeRoute::Server { .. } => if acknowledged {
                Ok(())
            } else {
                Err(Error::Generic)
            },
        }
    }

    /// The outcome of `set_panning` once the balance is set: `read` tells
    /// whether the server told the volumes of the channels, `set` whether
    /// it acknowledged the new ones. Both are needed, and nothing is tried
    /// again.
    pub fn panning_acknowledged(read: bool, set: bool) -> (r: Result<(), Error>)
        ensures
            r is Ok <==> read && set,
            r matches Err(e) ==> e == Error::Generic,
    {
        if read && set {
            Ok(())
        } else {
            Err(Error::Generic)
        }
    }

    /// The outcome of pausing or resuming the stream: `output` and `input`
    /// tell whether the server acknowledged the request for that
    /// direction. The acknowledgement of every direction in use is needed;
    /// that of a direction which the stream does not have is not looked
    /// at.
    pub fn cork_acknowledged(&self, output: bool, input: bool) -> (r: Result<(), Error>)
        ensures
            r is Ok <==> (self.output_stream is Some ==> output) && (self.input_stream is Some
                ==> input),
            r matches Err(e) ==> e == Error::Generic,
    {
        if (self.output_stream.is_some() && !output) || (self.input_stream.is_some() && !input) {
            Err(Error::Generic)
        } else {
            Ok(())
        }
    }
}

} // verus!
