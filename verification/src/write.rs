//! The capability-gated writer: owns a byte transport and a printer
//! model, sends the initialization command on open, checks capabilities
//! before encoding, and transmits each command as exactly one write.

use vstd::prelude::*;
use crate::barcode::Barcode;
use crate::commands::{
    push_all, spec_encodable, spec_encoding, Alignment, CharacterSet, Command, HriPosition,
};
use crate::epson_image::Raster;
use crate::models::{spec_max_image_width, spec_supports_character_set, Model};
use crate::Error as EpsonError;

verus! {

/// The transport collaborator: a scoped, ordered byte sink. An
/// implementation accepts a byte buffer and writes all of it, in order,
/// reporting failure if the full buffer could not be written.
pub trait Transport: Sized {
    /// The transport's own failure type.
    type Fault;

    /// The bytes the sink has accepted so far, in order.
    spec fn sent(&self) -> Seq<u8>;

    /// Write the full buffer to the sink. On success the sink has
    /// accepted exactly the old bytes followed by the buffer; on failure
    /// a prefix may have been accepted (partial writes are not rolled
    /// back).
    fn write_all(&mut self, buf: &[u8]) -> (r: Result<(), Self::Fault>)
        ensures
            r is Ok ==> final(self).sent() == old(self).sent() + buf@,
    ;
}

/// An in-memory transport that collects every written byte; it never
/// fails.
pub struct MemSink {
    buf: Vec<u8>,
}

impl MemSink {
    /// An empty sink.
    pub fn new() -> (r: MemSink)
        ensures
            r.sent() == Seq::<u8>::empty(),
    {
        MemSink { buf: Vec::new() }
    }

    /// The bytes accepted so far.
    pub fn bytes(&self) -> (r: &[u8])
        ensures
            r@ == self.sent(),
    {
        self.buf.as_slice()
    }
}

impl Transport for MemSink {
    type Fault = ();

    closed spec fn sent(&self) -> Seq<u8> {
        self.buf@
    }

    fn write_all(&mut self, buf: &[u8]) -> (r: Result<(), ()>) {
        push_all(&mut self.buf, buf);
        Ok(())
    }
}

/// All errors that can be returned from the writer: a protocol-level
/// refusal, or the transport's own failure, passed through unchanged.
#[derive(Debug)]
pub enum Error<F> {
    /// Raw protocol error.
    Epson(EpsonError),
    /// Underlying transport failure.
    Io(F),
}

/// Writes commands to a thermal printer over an owned transport,
/// checking them against the capabilities of the selected model.
pub struct Writer<T: Transport> {
    /// The owned transport handle.
    pub w: T,
    /// The model selected at open time; never changed afterwards.
    pub model: Model,
}

impl<T: Transport> Writer<T> {
    /// Create a new writer over the transport and immediately send the
    /// initialization command, before any caller-issued command.
    pub fn open(model: Model, w: T) -> (r: Result<Writer<T>, Error<T::Fault>>)
        ensures
            match r {
                Ok(writer) => {
                    &&& writer.model == model
                    &&& writer.w.sent() == w.sent() + spec_encoding(Command::Init)
                },
                Err(e) => e is Io,
            },
    {
        let mut r = Writer { w, model };
        match r.init() {
            Ok(()) => Ok(r),
            Err(e) => Err(e),
        }
    }

    /// Send a command to the printer: encode it and transmit the bytes
    /// as one write. Refuses, writing nothing, exactly when the command
    /// cannot be encoded (an oversized image); surfaces a transport
    /// failure unchanged.
    pub fn write_command(&mut self, cmd: Command) -> (r: Result<(), Error<T::Fault>>)
        requires
            cmd.wf(),
        ensures
            final(self).model == old(self).model,
            match r {
                Ok(()) => spec_encodable(cmd) && final(self).w.sent() == old(self).w.sent()
                    + spec_encoding(cmd),
                Err(e) => match e {
                    Error::Epson(pe) => {
                        &&& !spec_encodable(cmd)
                        &&& pe == EpsonError::ImageTooLarge
                        &&& *final(self) == *old(self)
                    },
                    Error::Io(_) => spec_encodable(cmd),
                },
            },
    {
        let bytes = match cmd.as_bytes() {
            Ok(bytes) => bytes,
            Err(e) => {
                return Err(Error::Epson(e));
            },
        };
        match self.w.write_all(bytes.as_slice()) {
            Ok(()) => Ok(()),
            Err(f) => Err(Error::Io(f)),
        }
    }

    /// Initialize the printer.
    pub fn init(&mut self) -> (r: Result<(), Error<T::Fault>>)
        ensures
            final(self).model == old(self).model,
            r is Ok ==> final(self).w.sent() == old(self).w.sent() + spec_encoding(Command::Init),
            r is Err ==> r->Err_0 is Io,
    {
        self.write_command(Command::Init)
    }

    /// Cut the printer paper.
    pub fn cut(&mut self) -> (r: Result<(), Error<T::Fault>>)
        ensures
            final(self).model == old(self).model,
            r is Ok ==> final(self).w.sent() == old(self).w.sent() + spec_encoding(Command::Cut),
            r is Err ==> r->Err_0 is Io,
    {
        self.write_command(Command::Cut)
    }

    /// Set the specific character set to be used on bytes sent to the
    /// printer. Refused, and nothing sent, when the model does not
    /// support the set.
    pub fn character_set(&mut self, c: CharacterSet) -> (r: Result<(), Error<T::Fault>>)
        ensures
            final(self).model == old(self).model,
            !spec_supports_character_set(old(self).model, c) ==> {
                &&& r == Err::<(), Error<T::Fault>>(Error::Epson(EpsonError::Unsupported))
                &&& *final(self) == *old(self)
            },
            spec_supports_character_set(old(self).model, c) ==> {
                &&& (r is Ok ==> final(self).w.sent() == old(self).w.sent() + spec_encoding(
                    Command::CharacterSet(c),
                ))
                &&& (r is Err ==> r->Err_0 is Io)
            },
    {
        if !self.model.supports_character_set(c) {
            return Err(Error::Epson(EpsonError::Unsupported));
        }
        self.write_command(Command::CharacterSet(c))
    }

    /// Set unicode mode on the printer, if the model supports it.
    pub fn set_unicode(&mut self) -> (r: Result<(), Error<T::Fault>>)
        ensures
            final(self).model == old(self).model,
            !spec_supports_character_set(old(self).model, CharacterSet::Unicode) ==> {
                &&& r == Err::<(), Error<T::Fault>>(Error::Epson(EpsonError::Unsupported))
                &&& *final(self) == *old(self)
            },
            spec_supports_character_set(old(self).model, CharacterSet::Unicode) ==> {
                &&& (r is Ok ==> final(self).w.sent() == old(self).w.sent() + spec_encoding(
                    Command::CharacterSet(CharacterSet::Unicode),
                ))
                &&& (r is Err ==> r->Err_0 is Io)
            },
    {
        self.character_set(CharacterSet::Unicode)
    }

    /// If true, text printed after this command will be underlined. If
    /// false, it will remove an underline if one was set.
    pub fn underline(&mut self, state: bool) -> (r: Result<(), Error<T::Fault>>)
        ensures
            final(self).model == old(self).model,
            r is Ok ==> final(self).w.sent() == old(self).w.sent() + spec_encoding(
                Command::Underline(state),
            ),
            r is Err ==> r->Err_0 is Io,
    {
        self.write_command(Command::Underline(state))
    }

    /// If true, emphasize the text printed after this command. If false,
    /// remove the emphasis.
    pub fn emphasize(&mut self, state: bool) -> (r: Result<(), Error<T::Fault>>)
        ensures
            final(self).model == old(self).model,
            r is Ok ==> final(self).w.sent() == old(self).w.sent() + spec_encoding(
                Command::Emphasize(state),
            ),
            r is Err ==> r->Err_0 is Io,
    {
        self.write_command(Command::Emphasize(state))
    }

    /// If true, reverse the color of the text printed after this
    /// command. If false, return the colors to normal.
    pub fn reverse(&mut self, state: bool) -> (r: Result<(), Error<T::Fault>>)
        ensures
            final(self).model == old(self).model,
            r is Ok ==> final(self).w.sent() == old(self).w.sent() + spec_encoding(
                Command::Reverse(state),
            ),
            r is Err ==> r->Err_0 is Io,
    {
        self.write_command(Command::Reverse(state))
    }

    /// If true, double-strike the text printed after this command. If
    /// false, remove the double-strike.
    pub fn double_strike(&mut self, state: bool) -> (r: Result<(), Error<T::Fault>>)
        ensures
            final(self).model == old(self).model,
            r is Ok ==> final(self).w.sent() == old(self).w.sent() + spec_encoding(
                Command::DoubleStrike(state),
            ),
            r is Err ==> r->Err_0 is Io,
    {
        self.write_command(Command::DoubleStrike(state))
    }

    /// Set the horizontal justification of the text printed after this
    /// command.
    pub fn justify(&mut self, alignment: Alignment) -> (r: Result<(), Error<T::Fault>>)
        ensures
            final(self).model == old(self).model,
            r is Ok ==> final(self).w.sent() == old(self).w.sent() + spec_encoding(
                Command::Justification(alignment),
            ),
            r is Err ==> r->Err_0 is Io,
    {
        self.write_command(Command::Justification(alignment))
    }

    /// Feed the specified number of lines out of the printer.
    pub fn feed(&mut self, count: u8) -> (r: Result<(), Error<T::Fault>>)
        ensures
            final(self).model == old(self).model,
            r is Ok ==> final(self).w.sent() == old(self).w.sent() + spec_encoding(
                Command::Feed(count),
            ),
            r is Err ==> r->Err_0 is Io,
    {
        self.write_command(Command::Feed(count))
    }

    /// Set the printer speed to the provided value, reduced modulo 9.
    pub fn speed(&mut self, speed: u8) -> (r: Result<(), Error<T::Fault>>)
        ensures
            final(self).model == old(self).model,
            r is Ok ==> final(self).w.sent() == old(self).w.sent() + spec_encoding(
                Command::Speed(speed),
            ),
            r is Err ==> r->Err_0 is Io,
    {
        self.write_command(Command::Speed(speed))
    }

    /// Set the print position of the HRI (human-readable interpretation)
    /// characters for barcodes.
    pub fn set_hri_position(&mut self, position: HriPosition) -> (r: Result<(), Error<T::Fault>>)
        ensures
            final(self).model == old(self).model,
            r is Ok ==> final(self).w.sent() == old(self).w.sent() + spec_encoding(
                Command::SetHriPosition(position),
            ),
            r is Err ==> r->Err_0 is Io,
    {
        self.write_command(Command::SetHriPosition(position))
    }

    /// Print a grayscale image, after checking its width against the
    /// model's maximum. A raster wider than the model allows is refused
    /// with a size-limit error before anything reaches the transport.
    pub fn print_image(&mut self, img: Raster) -> (r: Result<(), Error<T::Fault>>)
        requires
            img.wf(),
        ensures
            final(self).model == old(self).model,
            img.width > spec_max_image_width(old(self).model) ==> {
                &&& r == Err::<(), Error<T::Fault>>(Error::Epson(EpsonError::ImageTooLarge))
                &&& *final(self) == *old(self)
            },
            img.width <= spec_max_image_width(old(self).model) ==> match r {
                Ok(()) => spec_encodable(Command::Image(img)) && final(self).w.sent() == old(
                    self,
                ).w.sent() + spec_encoding(Command::Image(img)),
                Err(e) => match e {
                    Error::Epson(pe) => {
                        &&& !spec_encodable(Command::Image(img))
                        &&& pe == EpsonError::ImageTooLarge
                        &&& *final(self) == *old(self)
                    },
                    Error::Io(_) => spec_encodable(Command::Image(img)),
                },
            },
    {
        match self.model.check_image(&img) {
            Ok(()) => (),
            Err(e) => {
                return Err(Error::Epson(e));
            },
        }
        self.print_image_unchecked(img)
    }

    /// Print a grayscale image without the model's width check. This can
    /// transmit output the printer cannot render; the protocol encoding
    /// and the writer's own state are unaffected.
    pub fn print_image_unchecked(&mut self, img: Raster) -> (r: Result<(), Error<T::Fault>>)
        requires
            img.wf(),
        ensures
            final(self).model == old(self).model,
            match r {
                Ok(()) => spec_encodable(Command::Image(img)) && final(self).w.sent() == old(
                    self,
                ).w.sent() + spec_encoding(Command::Image(img)),
                Err(e) => match e {
                    Error::Epson(pe) => {
                        &&& !spec_encodable(Command::Image(img))
                        &&& pe == EpsonError::ImageTooLarge
                        &&& *final(self) == *old(self)
                    },
                    Error::Io(_) => spec_encodable(Command::Image(img)),
                },
            },
    {
        self.write_command(Command::Image(img))
    }

    /// Print a barcode.
    ///
    /// The barcode will be printed according to the currently set HRI
    /// position; use `set_hri_position` to control it.
    pub fn print_barcode(&mut self, barcode: Barcode) -> (r: Result<(), Error<T::Fault>>)
        requires
            barcode.wf(),
        ensures
            final(self).model == old(self).model,
            r is Ok ==> final(self).w.sent() == old(self).w.sent() + spec_encoding(
                Command::Barcode(barcode),
            ),
            r is Err ==> r->Err_0 is Io,
    {
        self.write_command(Command::Barcode(barcode))
    }

    /// Send raw bytes to the printer, unencoded, as one write.
    pub fn write_all(&mut self, buf: &[u8]) -> (r: Result<(), Error<T::Fault>>)
        ensures
            final(self).model == old(self).model,
            r is Ok ==> final(self).w.sent() == old(self).w.sent() + buf@,
            r is Err ==> r->Err_0 is Io,
    {
        match self.w.write_all(buf) {
            Ok(()) => Ok(()),
            Err(f) => Err(Error::Io(f)),
        }
    }
}

} // verus!
