//! The external image conversion tool: its command lines, and what a run of
//! it yields.
//!
//! The library builds each command line and judges each finished run. To
//! start the process, feed its standard input and collect its standard
//! output is left to the caller, who reports the run as a [`Run`]. The path
//! of the image file stays with the caller too: a command holds a place for
//! it.

use crate::color::Color;
use crate::image_buf::{
    lemma_decode_encode, lemma_encode_len, spec_decode, spec_elements, ImageBuf,
};
use crate::text::{
    chars_of, decimal, field_end, field_start, number, push_string, push_text, skip_field,
    skip_spaces, spec_decimal, spec_number, texts,
};
use crate::ty::Type;
use vstd::prelude::*;
use vstd::string::StringExecFns;
use vstd::string::StringSliceAdditionalSpecFns;
use vstd::utf8::{decode_utf8, encode_utf8_decode_utf8, valid_utf8};

verus! {

/// What can go wrong with the external tool.
#[derive(Debug, Clone, Copy, PartialEq, Eq)]
pub enum Error {
    /// The shape of an image could not be found out.
    InvalidImageShape,
    /// The colorspace is not supported.
    InvalidColor,
    /// The file does not exist.
    FileDoesNotExist,
    /// The pixel data could not be had.
    InvalidImageData,
    /// The tool could not be started or did not run to a good end.
    UnableToExecuteCommand,
    /// The pixel data could not be handed to the tool.
    ErrorWritingImage,
    /// The pixel data is not of the size that the shape asks for.
    DataSizeMismatch,
}

/// A command profile: the words that start a shape query and the words that
/// start a conversion. Neither is empty; the first word is the program.
pub struct Magick {
    identify: Vec<String>,
    convert: Vec<String>,
}

/// The token that names the colorspace `C` and stands for a raw pixel
/// stream on standard input or output.
pub open spec fn spec_kind<C: Color>() -> Seq<char> {
    C::spec_name() + ":-"@
}

/// The arguments that tell the tool the element type `T`: the depth in
/// bits, and for a floating-point type the quantum format.
pub open spec fn spec_depth<T: Type>() -> Seq<Seq<char>> {
    let depth = seq!["-depth"@, spec_decimal(T::spec_size() * 8)];
    if T::spec_is_float() {
        depth + seq!["-define"@, "quantum:format=floating-point"@]
    } else {
        depth
    }
}

/// The argument that gives the size of a raw image: width, `x`, height.
pub open spec fn spec_size(width: usize, height: usize) -> Seq<char> {
    spec_decimal(width as nat) + "x"@ + spec_decimal(height as nat)
}

/// One word of a command line.
#[derive(Debug, PartialEq, Eq)]
pub enum Word<S> {
    /// A word that is this text.
    Text(S),
    /// The place of the path of the image file.
    Path,
}

impl View for Word<String> {
    type V = Word<Seq<char>>;

    open spec fn view(&self) -> Word<Seq<char>> {
        match self {
            Word::Text(s) => Word::Text(s@),
            Word::Path => Word::Path,
        }
    }
}

/// The words of a command line, each text word as its text.
pub open spec fn words(list: Seq<Word<String>>) -> Seq<Word<Seq<char>>> {
    Seq::new(list.len(), |i: int| list[i]@)
}

/// The texts `list` as words of a command line.
pub open spec fn text_words(list: Seq<Seq<char>>) -> Seq<Word<Seq<char>>> {
    Seq::new(list.len(), |i: int| Word::Text(list[i]))
}

/// The arguments of a shape query, after the profile's words: the format
/// of the answer, then the path.
pub open spec fn spec_identify_args() -> Seq<Word<Seq<char>>> {
    text_words(seq!["-format"@, "%w %h"@]) + seq![Word::Path]
}

/// The arguments that read the file as raw pixels on standard output, after
/// the profile's words: the path, the element type, the raw stream.
pub open spec fn spec_read_args<T: Type, C: Color>() -> Seq<Word<Seq<char>>> {
    seq![Word::Path] + text_words(spec_depth::<T>() + seq![spec_kind::<C>()])
}

/// The arguments that take raw pixels of the given shape from standard
/// input, after the profile's words and before the sink: the element type,
/// the size, the raw stream.
pub open spec fn spec_raw_args<T: Type, C: Color>(width: usize, height: usize) -> Seq<Seq<char>> {
    spec_depth::<T>() + seq!["-size"@, spec_size(width, height), spec_kind::<C>()]
}

/// The arguments that write raw pixels of the given shape from standard
/// input to the file, after the profile's words.
pub open spec fn spec_write_args<T: Type, C: Color>(width: usize, height: usize) -> Seq<
    Word<Seq<char>>,
> {
    text_words(spec_raw_args::<T, C>(width, height)) + seq![Word::Path]
}

/// The arguments that encode raw pixels of the given shape from standard
/// input in the format `format` onto standard output, after the profile's
/// words.
pub open spec fn spec_encode_args<T: Type, C: Color>(
    width: usize,
    height: usize,
    format: Seq<char>,
) -> Seq<Seq<char>> {
    spec_raw_args::<T, C>(width, height) + seq![format + ":-"@]
}

/// Appends the texts `list` to `cmd`, as words.
fn push_texts(cmd: &mut Vec<Word<String>>, list: &Vec<String>)
    ensures
        words(final(cmd)@) == words(old(cmd)@) + text_words(texts(list@)),
        final(cmd)@.len() == old(cmd)@.len() + list@.len(),
{
    let mut i: usize = 0;
    while i < list.len()
        invariant
            i <= list@.len(),
            cmd@.len() == old(cmd)@.len() + i,
            words(cmd@) == words(old(cmd)@) + text_words(texts(list@.take(i as int))),
        decreases list@.len() - i,
    {
        let ghost before = cmd@;
        let word = list[i].clone();
        cmd.push(Word::Text(word));
        assert(words(cmd@) =~= words(old(cmd)@) + text_words(texts(list@.take(i + 1)))) by {
            assert(words(cmd@) =~= words(before).push(Word::Text(list@[i as int]@)));
        }
        i = i + 1;
    }
    assert(list@.take(i as int) =~= list@);
}

/// Appends the place of the path to `cmd`.
fn push_path(cmd: &mut Vec<Word<String>>)
    ensures
        words(final(cmd)@) == words(old(cmd)@) + seq![Word::<Seq<char>>::Path],
        final(cmd)@.len() == old(cmd)@.len() + 1,
{
    cmd.push(Word::Path);
    assert(words(cmd@) =~= words(old(cmd)@) + seq![Word::<Seq<char>>::Path]);
}

/// The token that names the colorspace `C` and stands for a raw pixel
/// stream on standard input or output: the name, then `:-`.
pub fn kind<C: Color>() -> (s: String)
    ensures
        s@ == spec_kind::<C>(),
{
    let mut s = String::from_str(C::name());
    s.append(":-");
    s
}

/// Appends to `cmd` the arguments that tell the tool the element type `T`.
pub fn depth<T: Type>(cmd: &mut Vec<String>)
    ensures
        texts(final(cmd)@) == texts(old(cmd)@) + spec_depth::<T>(),
{
    let bits: usize = T::size() * 8;
    push_text(cmd, "-depth");
    push_string(cmd, decimal(bits));
    if T::is_float() {
        push_text(cmd, "-define");
        push_text(cmd, "quantum:format=floating-point");
    }
    assert(texts(cmd@) =~= texts(old(cmd)@) + spec_depth::<T>());
}

/// The size argument of a raw image: width, `x`, height.
pub fn size(width: usize, height: usize) -> (s: String)
    ensures
        s@ == spec_size(width, height),
{
    let mut s = decimal(width);
    s.append("x");
    let h = decimal(height);
    s.append(h.as_str());
    s
}

impl Clone for Magick {
    /// A profile with the same words.
    fn clone(&self) -> (m: Self)
        ensures
            m.spec_identify() == self.spec_identify(),
            m.spec_convert() == self.spec_convert(),
    {
        proof {
            use_type_invariant(self);
        }
        let identify = self.identify.clone();
        let convert = self.convert.clone();
        assert(texts(identify@) =~= texts(self.identify@));
        assert(texts(convert@) =~= texts(self.convert@));
        Magick { identify, convert }
    }
}

impl Default for Magick {
    /// The profile that is used where none was chosen: ImageMagick.
    fn default() -> (m: Self)
        ensures
            m.spec_identify() == seq!["identify"@],
            m.spec_convert() == seq!["convert"@],
    {
        Magick::im()
    }
}

impl Magick {
    #[verifier::type_invariant]
    spec fn well_formed(self) -> bool {
        self.identify@.len() >= 1 && self.convert@.len() >= 1
    }

    /// The words that start a shape query.
    pub closed spec fn spec_identify(&self) -> Seq<Seq<char>> {
        texts(self.identify@)
    }

    /// The words that start a conversion.
    pub closed spec fn spec_convert(&self) -> Seq<Seq<char>> {
        texts(self.convert@)
    }

    /// The command of a shape query.
    pub open spec fn spec_identify_command(&self) -> Seq<Word<Seq<char>>> {
        text_words(self.spec_identify()) + spec_identify_args()
    }

    /// The command that reads the file as raw pixels.
    pub open spec fn spec_read_command<T: Type, C: Color>(&self) -> Seq<Word<Seq<char>>> {
        text_words(self.spec_convert()) + spec_read_args::<T, C>()
    }

    /// The command that writes raw pixels of the given shape to the file.
    pub open spec fn spec_write_command<T: Type, C: Color>(
        &self,
        width: usize,
        height: usize,
    ) -> Seq<Word<Seq<char>>> {
        text_words(self.spec_convert()) + spec_write_args::<T, C>(width, height)
    }

    /// The command that encodes raw pixels of the given shape in the format
    /// `format`, onto standard output.
    pub open spec fn spec_encode_command<T: Type, C: Color>(
        &self,
        width: usize,
        height: usize,
        format: Seq<char>,
    ) -> Seq<Seq<char>> {
        self.spec_convert() + spec_encode_args::<T, C>(width, height, format)
    }

    /// The ImageMagick profile: `identify` and `convert`.
    pub fn im() -> (m: Magick)
        ensures
            m.spec_identify() == seq!["identify"@],
            m.spec_convert() == seq!["convert"@],
    {
        let mut identify: Vec<String> = Vec::new();
        push_text(&mut identify, "identify");
        let mut convert: Vec<String> = Vec::new();
        push_text(&mut convert, "convert");
        assert(texts(identify@) =~= seq!["identify"@]);
        assert(texts(convert@) =~= seq!["convert"@]);
        Magick { identify, convert }
    }

    /// The GraphicsMagick profile: `gm identify` and `gm convert`.
    pub fn gm() -> (m: Magick)
        ensures
            m.spec_identify() == seq!["gm"@, "identify"@],
            m.spec_convert() == seq!["gm"@, "convert"@],
    {
        let mut identify: Vec<String> = Vec::new();
        push_text(&mut identify, "gm");
        push_text(&mut identify, "identify");
        let mut convert: Vec<String> = Vec::new();
        push_text(&mut convert, "gm");
        push_text(&mut convert, "convert");
        assert(texts(identify@) =~= seq!["gm"@, "identify"@]);
        assert(texts(convert@) =~= seq!["gm"@, "convert"@]);
        Magick { identify, convert }
    }

    /// A copy of the words that start a conversion.
    fn convert_words(&self) -> (cmd: Vec<String>)
        ensures
            texts(cmd@) == self.spec_convert(),
            cmd@.len() >= 1,
    {
        proof {
            use_type_invariant(self);
        }
        let cmd = self.convert.clone();
        assert(texts(cmd@) =~= texts(self.convert@));
        cmd
    }

    /// The command of a shape query: the program, then its arguments, with
    /// a place for the path of the file.
    pub fn identify_command(&self) -> (cmd: Vec<Word<String>>)
        ensures
            words(cmd@) == self.spec_identify_command(),
            cmd@.len() >= 1,
            cmd@[0] is Text,
    {
        proof {
            use_type_invariant(self);
        }
        let mut args: Vec<String> = Vec::new();
        push_text(&mut args, "-format");
        push_text(&mut args, "%w %h");
        assert(texts(args@) =~= seq!["-format"@, "%w %h"@]);
        let mut cmd: Vec<Word<String>> = Vec::new();
        push_texts(&mut cmd, &self.identify);
        push_texts(&mut cmd, &args);
        push_path(&mut cmd);
        assert(words(cmd@) =~= self.spec_identify_command());
        assert(words(cmd@)[0] == cmd@[0]@);
        cmd
    }

    /// The command that reads the file as raw pixels of type `T` in the
    /// colorspace `C` on standard output: the program, then its arguments,
    /// with a place for the path of the file.
    pub fn read_command<T: Type, C: Color>(&self) -> (cmd: Vec<Word<String>>)
        ensures
            words(cmd@) == self.spec_read_command::<T, C>(),
            cmd@.len() >= 1,
            cmd@[0] is Text,
    {
        proof {
            use_type_invariant(self);
        }
        let mut args: Vec<String> = Vec::new();
        depth::<T>(&mut args);
        push_string(&mut args, kind::<C>());
        assert(texts(args@) =~= spec_depth::<T>() + seq![spec_kind::<C>()]);
        let mut cmd: Vec<Word<String>> = Vec::new();
        push_texts(&mut cmd, &self.convert);
        push_path(&mut cmd);
        push_texts(&mut cmd, &args);
        assert(words(cmd@) =~= self.spec_read_command::<T, C>());
        assert(words(cmd@)[0] == cmd@[0]@);
        cmd
    }

    /// The arguments that take raw pixels of `image`'s shape from standard
    /// input, up to the sink.
    fn raw_args<T: Type, C: Color>(image: &ImageBuf<T, C>) -> (args: Vec<String>)
        ensures
            texts(args@) == spec_raw_args::<T, C>(image.spec_width(), image.spec_height()),
    {
        let mut args: Vec<String> = Vec::new();
        depth::<T>(&mut args);
        push_text(&mut args, "-size");
        push_string(&mut args, size(image.width(), image.height()));
        push_string(&mut args, kind::<C>());
        assert(texts(args@) =~= spec_raw_args::<T, C>(image.spec_width(), image.spec_height()));
        args
    }

    /// The command that writes `image`, handed over as raw pixels on
    /// standard input, to the file: the program, then its arguments, with a
    /// place for the path of the file.
    pub fn write_command<T: Type, C: Color>(&self, image: &ImageBuf<T, C>) -> (cmd: Vec<
        Word<String>,
    >)
        ensures
            words(cmd@) == self.spec_write_command::<T, C>(
                image.spec_width(),
                image.spec_height(),
            ),
            cmd@.len() >= 1,
            cmd@[0] is Text,
    {
        proof {
            use_type_invariant(self);
        }
        let args = Self::raw_args(image);
        let mut cmd: Vec<Word<String>> = Vec::new();
        push_texts(&mut cmd, &self.convert);
        push_texts(&mut cmd, &args);
        push_path(&mut cmd);
        assert(words(cmd@) =~= self.spec_write_command::<T, C>(
            image.spec_width(),
            image.spec_height(),
        ));
        assert(words(cmd@)[0] == cmd@[0]@);
        cmd
    }

    /// The command that encodes `image`, handed over as raw pixels on
    /// standard input, in the format `format` onto standard output: the
    /// program, then its arguments.
    pub fn encode_command<T: Type, C: Color>(&self, format: &str, image: &ImageBuf<T, C>) -> (cmd:
        Vec<String>)
        ensures
            texts(cmd@) == self.spec_encode_command::<T, C>(
                image.spec_width(),
                image.spec_height(),
                format@,
            ),
            cmd@.len() >= 1,
    {
        let mut cmd = self.convert_words();
        let args = Self::raw_args(image);
        let mut i: usize = 0;
        while i < args.len()
            invariant
                i <= args@.len(),
                cmd@.len() >= 1,
                texts(cmd@) == self.spec_convert() + texts(args@.take(i as int)),
            decreases args@.len() - i,
        {
            push_string(&mut cmd, args[i].clone());
            assert(texts(cmd@) =~= self.spec_convert() + texts(args@.take(i + 1)));
            i = i + 1;
        }
        assert(args@.take(i as int) =~= args@);
        let mut sink = String::from_str(format);
        sink.append(":-");
        push_string(&mut cmd, sink);
        assert(texts(cmd@) =~= self.spec_encode_command::<T, C>(
            image.spec_width(),
            image.spec_height(),
            format@,
        ));
        cmd
    }
}

/// How a run of the external tool went, as the caller reports it.
#[derive(Debug, PartialEq, Eq)]
pub enum Run {
    /// The process could not be started.
    SpawnFailed,
    /// The process did not take all of its standard input.
    WriteFailed,
    /// Waiting for the process to end failed.
    WaitFailed,
    /// The standard output of the process could not be read to its end.
    ReadFailed,
    /// The process ran to its end.
    Exited {
        /// Whether it reported success.
        success: bool,
        /// All of its standard output.
        stdout: Vec<u8>,
    },
}

impl Run {
    /// Whether the process ran to its end and reported success.
    pub open spec fn succeeded(self) -> bool {
        self matches Run::Exited { success, .. } && success
    }

    /// The error of a run that did not succeed, where the tool was fed on
    /// standard input.
    pub open spec fn spec_failure(self) -> Error {
        match self {
            Run::SpawnFailed => Error::UnableToExecuteCommand,
            Run::WriteFailed => Error::ErrorWritingImage,
            Run::WaitFailed => Error::UnableToExecuteCommand,
            Run::ReadFailed => Error::InvalidImageData,
            Run::Exited { .. } => Error::UnableToExecuteCommand,
        }
    }

    /// The error of a run that did not succeed, where the tool was fed on
    /// standard input: a process that could not be started, could not be
    /// waited for or reported failure gives `UnableToExecuteCommand`, input
    /// that it did not take `ErrorWritingImage`, output that could not be
    /// read `InvalidImageData`.
    pub fn failure(&self) -> (e: Error)
        ensures
            e == self.spec_failure(),
    {
        match self {
            Run::SpawnFailed => Error::UnableToExecuteCommand,
            Run::WriteFailed => Error::ErrorWritingImage,
            Run::WaitFailed => Error::UnableToExecuteCommand,
            Run::ReadFailed => Error::InvalidImageData,
            Run::Exited { .. } => Error::UnableToExecuteCommand,
        }
    }
}

/// The width and the height that `text` reports: its first two fields,
/// where fields are separated by white space, each a positive integer. What
/// follows the second field is not looked at.
pub open spec fn spec_shape(text: Seq<char>) -> Option<(usize, usize)> {
    let a = field_start(text, 0);
    let b = field_end(text, a);
    let c = field_start(text, b);
    let d = field_end(text, c);
    if a < text.len() && c < text.len() {
        match (spec_number(text.subrange(a, b)), spec_number(text.subrange(c, d))) {
            (Some(width), Some(height)) => if width > 0 && height > 0 {
                Some((width, height))
            } else {
                None
            },
            _ => None,
        }
    } else {
        None
    }
}

/// The width and the height that the output of a shape query reports: the
/// output has to be UTF-8, and its text has to report a shape.
pub open spec fn spec_shape_of_output(output: Seq<u8>) -> Option<(usize, usize)> {
    if valid_utf8(output) {
        spec_shape(decode_utf8(output))
    } else {
        None
    }
}

/// The width and the height that `text` reports, if it reports them.
pub fn shape(text: &str) -> (r: Option<(usize, usize)>)
    ensures
        r == spec_shape(text@),
        r matches Some(s) ==> s.0 > 0 && s.1 > 0,
{
    let chars = chars_of(text);
    let a = skip_spaces(&chars, 0);
    let b = skip_field(&chars, a);
    let c = skip_spaces(&chars, b);
    let d = skip_field(&chars, c);
    if a < chars.len() && c < chars.len() {
        match number(&chars, a, b) {
            Some(width) => match number(&chars, c, d) {
                Some(height) => if width > 0 && height > 0 {
                    Some((width, height))
                } else {
                    None
                },
                None => None,
            },
            None => None,
        }
    } else {
        None
    }
}

/// `core::str::from_utf8`, with its error dropped: the bytes as a string
/// slice, where they are valid UTF-8, and nothing where they are not. The
/// string slice is made of the very bytes that were given.
#[verifier::external_body]
fn utf8(bytes: &[u8]) -> (r: Option<&str>)
    ensures
        r is Some <==> valid_utf8(bytes@),
        r matches Some(s) ==> s.spec_bytes() == bytes@,
{
    core::str::from_utf8(bytes).ok()
}

/// The width and the height that the output of a shape query reports, if it
/// reports them.
pub fn shape_of_output(output: &[u8]) -> (r: Option<(usize, usize)>)
    ensures
        r == spec_shape_of_output(output@),
{
    match utf8(output) {
        Some(text) => {
            proof {
                encode_utf8_decode_utf8(text@);
            }
            shape(text)
        },
        None => None,
    }
}

impl Magick {
    /// What a shape query yields.
    pub open spec fn spec_get_image_shape(run: Run) -> Result<(usize, usize), Error> {
        match run {
            Run::Exited { stdout, .. } => match spec_shape_of_output(stdout@) {
                Some(shape) => Ok(shape),
                None => Err(Error::InvalidImageShape),
            },
            _ => Err(Error::InvalidImageShape),
        }
    }

    /// What a conversion to a file yields.
    pub open spec fn spec_write(run: Run) -> Result<(), Error> {
        if run.succeeded() {
            Ok(())
        } else {
            Err(run.spec_failure())
        }
    }

    /// The size of an image from a run of the command that
    /// `identify_command` gives: the width and the height that the output
    /// reports. A run that did not reach its end, output that is not UTF-8
    /// and output that does not start with two positive integers all give
    /// `InvalidImageShape`. Whether the process reported success is not
    /// asked.
    pub fn get_image_shape(&self, run: &Run) -> (r: Result<(usize, usize), Error>)
        ensures
            r == Self::spec_get_image_shape(*run),
            r matches Ok(s) ==> s.0 > 0 && s.1 > 0,
    {
        match run {
            Run::Exited { stdout, .. } => match shape_of_output(stdout.as_slice()) {
                Some(shape) => Ok(shape),
                None => Err(Error::InvalidImageShape),
            },
            _ => Err(Error::InvalidImageShape),
        }
    }

    /// What follows a shape query when an image is read: the width and the
    /// height that the query found, and the command that reads the file as
    /// raw pixels, where the query found a shape; the error of the query,
    /// and no command, where it did not.
    pub fn read_plan<T: Type, C: Color>(&self, query: &Run) -> (r: Result<
        ((usize, usize), Vec<Word<String>>),
        Error,
    >)
        ensures
            match Self::spec_get_image_shape(*query) {
                Ok(shape) => r matches Ok(plan) && plan.0 == shape && words(plan.1@)
                    == self.spec_read_command::<T, C>() && plan.1@.len() >= 1
                    && plan.1@[0] is Text,
                Err(e) => r matches Err(f) && f == e,
            },
    {
        match self.get_image_shape(query) {
            Ok(shape) => Ok((shape, self.read_command::<T, C>())),
            Err(e) => Err(e),
        }
    }

    /// Whether `r` is what the run of a conversion to raw pixels yields for
    /// an image of the given width and height: the image whose elements the
    /// output holds, where the run succeeded and the output is exactly the
    /// bytes of `width * height * channels` elements; `DataSizeMismatch`,
    /// where it succeeded with other output; `InvalidImageData`, where it
    /// did not succeed.
    pub open spec fn spec_read<T: Type, C: Color>(
        width: usize,
        height: usize,
        run: Run,
        r: Result<ImageBuf<T, C>, Error>,
    ) -> bool {
        &&& r is Ok <==> run.succeeded() && run->stdout@.len() == spec_elements::<C>(width, height)
            * T::spec_size()
        &&& r matches Ok(image) ==> image.spec_width() == width && image.spec_height() == height
            && image.spec_data() == spec_decode::<T>(run->stdout@)
        &&& r matches Err(e) ==> e == if run.succeeded() {
            Error::DataSizeMismatch
        } else {
            Error::InvalidImageData
        }
    }

    /// The image of the given width and height from a run of the command
    /// that `read_command` gives: its standard output taken as raw pixels.
    /// A run that did not succeed gives `InvalidImageData`; output that is
    /// not exactly the bytes of `width * height * channels` elements gives
    /// `DataSizeMismatch`.
    pub fn read<T: Type, C: Color>(&self, width: usize, height: usize, run: &Run) -> (r: Result<
        ImageBuf<T, C>,
        Error,
    >)
        ensures
            Self::spec_read(width, height, *run, r),
    {
        match run {
            Run::Exited { success, stdout } => {
                if *success {
                    match ImageBuf::from_bytes(width, height, stdout.as_slice()) {
                        Ok(image) => Ok(image),
                        Err(_) => Err(Error::DataSizeMismatch),
                    }
                } else {
                    Err(Error::InvalidImageData)
                }
            },
            _ => Err(Error::InvalidImageData),
        }
    }

    /// What writing `image` to a file asks of the tool: the command, and all
    /// of its standard input, which is the raw bytes of the image.
    pub fn write_plan<T: Type, C: Color>(&self, image: &ImageBuf<T, C>) -> (plan: (
        Vec<Word<String>>,
        Vec<u8>,
    ))
        ensures
            words(plan.0@) == self.spec_write_command::<T, C>(
                image.spec_width(),
                image.spec_height(),
            ),
            plan.0@.len() >= 1,
            plan.0@[0] is Text,
            plan.1@ == image.spec_buffer(),
    {
        (self.write_command(image), image.buffer())
    }

    /// What encoding `image` in the format `format` asks of the tool: the
    /// command, and all of its standard input, which is the raw bytes of the
    /// image.
    pub fn encode_plan<T: Type, C: Color>(&self, format: &str, image: &ImageBuf<T, C>) -> (plan: (
        Vec<String>,
        Vec<u8>,
    ))
        ensures
            texts(plan.0@) == self.spec_encode_command::<T, C>(
                image.spec_width(),
                image.spec_height(),
                format@,
            ),
            plan.0@.len() >= 1,
            plan.1@ == image.spec_buffer(),
    {
        (self.encode_command(format, image), image.buffer())
    }

    /// The outcome of a run of the command that `write_command` gives:
    /// nothing where it succeeded, else the error of the failure.
    pub fn write(&self, run: &Run) -> (r: Result<(), Error>)
        ensures
            r == Self::spec_write(*run),
    {
        match run {
            Run::Exited { success: true, .. } => Ok(()),
            _ => Err(run.failure()),
        }
    }

    /// The encoded image from a run of the command that `encode_command`
    /// gives: all of its standard output where it succeeded, else the error
    /// of the failure.
    pub fn encode(&self, run: Run) -> (r: Result<Vec<u8>, Error>)
        ensures
            r is Ok <==> run.succeeded(),
            r matches Ok(bytes) ==> bytes@ == run->stdout@,
            r matches Err(e) ==> e == run.spec_failure(),
    {
        match run {
            Run::Exited { success: true, stdout } => Ok(stdout),
            other => Err(other.failure()),
        }
    }
}

/// A tool that hands the raw bytes of an image through unchanged gives the
/// image back: the same shape and the same elements.
pub proof fn lemma_read_of_written<T: Type, C: Color>(
    image: ImageBuf<T, C>,
    run: Run,
    r: Result<ImageBuf<T, C>, Error>,
)
    requires
        image.spec_data().len() == spec_elements::<C>(image.spec_width(), image.spec_height()),
        run.succeeded(),
        run->stdout@ == image.spec_buffer(),
        Magick::spec_read(image.spec_width(), image.spec_height(), run, r),
    ensures
        r is Ok,
        r->Ok_0.spec_shape() == image.spec_shape(),
        r->Ok_0.spec_data() == image.spec_data(),
{
    lemma_encode_len(image.spec_data());
    lemma_decode_encode(image.spec_data());
}

/// Two profiles give commands that differ in their first words only: what
/// follows the profile's words is the same, whatever the profile.
pub proof fn lemma_profile_changes_first_words_only<T: Type, C: Color>(
    a: Magick,
    b: Magick,
    width: usize,
    height: usize,
    format: Seq<char>,
)
    ensures
        a.spec_identify_command().skip(a.spec_identify().len() as int)
            == b.spec_identify_command().skip(b.spec_identify().len() as int),
        a.spec_read_command::<T, C>().skip(a.spec_convert().len() as int) == b.spec_read_command::<
            T,
            C,
        >().skip(b.spec_convert().len() as int),
        a.spec_write_command::<T, C>(width, height).skip(a.spec_convert().len() as int)
            == b.spec_write_command::<T, C>(width, height).skip(b.spec_convert().len() as int),
        a.spec_encode_command::<T, C>(width, height, format).skip(a.spec_convert().len() as int)
            == b.spec_encode_command::<T, C>(width, height, format).skip(
            b.spec_convert().len() as int,
        ),
        a.spec_identify_command().take(a.spec_identify().len() as int) == text_words(
            a.spec_identify(),
        ),
        a.spec_read_command::<T, C>().take(a.spec_convert().len() as int) == text_words(
            a.spec_convert(),
        ),
        a.spec_write_command::<T, C>(width, height).take(a.spec_convert().len() as int)
            == text_words(a.spec_convert()),
        a.spec_encode_command::<T, C>(width, height, format).take(a.spec_convert().len() as int)
            == a.spec_convert(),
{
    lemma_after_first_words(text_words(a.spec_identify()), spec_identify_args());
    lemma_after_first_words(text_words(b.spec_identify()), spec_identify_args());
    lemma_after_first_words(text_words(a.spec_convert()), spec_read_args::<T, C>());
    lemma_after_first_words(text_words(b.spec_convert()), spec_read_args::<T, C>());
    lemma_after_first_words(text_words(a.spec_convert()), spec_write_args::<T, C>(width, height));
    lemma_after_first_words(text_words(b.spec_convert()), spec_write_args::<T, C>(width, height));
    lemma_after_first_words(a.spec_convert(), spec_encode_args::<T, C>(width, height, format));
    lemma_after_first_words(b.spec_convert(), spec_encode_args::<T, C>(width, height, format));
}

/// A command is its first words, then its arguments.
proof fn lemma_after_first_words<A>(first: Seq<A>, args: Seq<A>)
    ensures
        (first + args).skip(first.len() as int) == args,
        (first + args).take(first.len() as int) == first,
{
    assert((first + args).skip(first.len() as int) =~= args);
    assert((first + args).take(first.len() as int) =~= first);
}

} // verus!
