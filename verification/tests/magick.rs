use typed_image::color::{Gray, Rgb, Rgba};
use typed_image::image_buf::ImageBuf;
use typed_image::io::magick::{
    depth, kind, shape, shape_of_output, size, Error, Magick, Run, Word,
};
use typed_image::ty::{Float32, Float64};

fn words(list: &[&str]) -> Vec<String> {
    list.iter().map(|s| s.to_string()).collect()
}

/// A command line: `<path>` stands for the place of the path.
fn line(list: &[&str]) -> Vec<Word<String>> {
    list.iter()
        .map(|s| if *s == "<path>" { Word::Path } else { Word::Text(s.to_string()) })
        .collect()
}

fn exited(success: bool, stdout: &[u8]) -> Run {
    Run::Exited { success, stdout: stdout.to_vec() }
}

#[test]
fn kind_is_the_name_and_a_dash() {
    assert_eq!(kind::<Rgb>(), "rgb:-");
    assert_eq!(kind::<Gray>(), "gray:-");
    assert_eq!(kind::<Rgba>(), "rgba:-");
}

#[test]
fn depth_is_the_element_size_in_bits() {
    let mut cmd = words(&["convert"]);
    depth::<u8>(&mut cmd);
    assert_eq!(cmd, words(&["convert", "-depth", "8"]));
    let mut cmd = Vec::new();
    depth::<u16>(&mut cmd);
    assert_eq!(cmd, words(&["-depth", "16"]));
    let mut cmd = Vec::new();
    depth::<u64>(&mut cmd);
    assert_eq!(cmd, words(&["-depth", "64"]));
}

#[test]
fn depth_of_floats_defines_the_quantum_format() {
    let mut cmd = Vec::new();
    depth::<Float32>(&mut cmd);
    assert_eq!(cmd, words(&["-depth", "32", "-define", "quantum:format=floating-point"]));
    let mut cmd = Vec::new();
    depth::<Float64>(&mut cmd);
    assert_eq!(cmd, words(&["-depth", "64", "-define", "quantum:format=floating-point"]));
}

#[test]
fn size_is_width_x_height() {
    assert_eq!(size(640, 480), "640x480");
    assert_eq!(size(0, 1), "0x1");
}

#[test]
fn identify_command_of_each_profile() {
    assert_eq!(
        Magick::im().identify_command(),
        vec![
            Word::Text("identify".to_string()),
            Word::Text("-format".to_string()),
            Word::Text("%w %h".to_string()),
            Word::Path,
        ]
    );
    assert_eq!(
        Magick::gm().identify_command(),
        line(&["gm", "identify", "-format", "%w %h", "<path>"])
    );
}

#[test]
fn read_command_of_each_profile() {
    assert_eq!(
        Magick::im().read_command::<u8, Rgb>(),
        line(&["convert", "<path>", "-depth", "8", "rgb:-"])
    );
    assert_eq!(
        Magick::gm().read_command::<u16, Gray>(),
        line(&["gm", "convert", "<path>", "-depth", "16", "gray:-"])
    );
}

#[test]
fn read_command_for_floats() {
    assert_eq!(
        Magick::im().read_command::<Float32, Rgba>(),
        line(&[
            "convert",
            "<path>",
            "-depth",
            "32",
            "-define",
            "quantum:format=floating-point",
            "rgba:-"
        ])
    );
}

#[test]
fn write_command_gives_depth_size_kind_and_path() {
    let image = ImageBuf::<u8, Rgb>::new(640, 480, vec![0; 640 * 480 * 3]).unwrap();
    assert_eq!(
        Magick::im().write_command(&image),
        line(&["convert", "-depth", "8", "-size", "640x480", "rgb:-", "<path>"])
    );
    assert_eq!(
        Magick::gm().write_command(&image),
        line(&["gm", "convert", "-depth", "8", "-size", "640x480", "rgb:-", "<path>"])
    );
}

#[test]
fn write_command_puts_the_width_first() {
    let image = ImageBuf::<u8, Gray>::new(3, 20, vec![0; 60]).unwrap();
    assert_eq!(
        Magick::im().write_command(&image),
        line(&["convert", "-depth", "8", "-size", "3x20", "gray:-", "<path>"])
    );
}

#[test]
fn a_command_holds_the_path_once_and_starts_with_the_program() {
    let image = ImageBuf::<u8, Rgb>::new(1, 1, vec![0; 3]).unwrap();
    for m in [Magick::im(), Magick::gm()] {
        for cmd in [m.identify_command(), m.read_command::<u8, Rgb>(), m.write_command(&image)] {
            assert_eq!(cmd.iter().filter(|w| **w == Word::Path).count(), 1);
            assert!(matches!(cmd[0], Word::Text(_)));
        }
    }
}

#[test]
fn encode_command_ends_in_the_format() {
    let one = Float32 { bits: 0 };
    let image = ImageBuf::<Float32, Gray>::new(2, 1, vec![one, one]).unwrap();
    assert_eq!(
        Magick::im().encode_command("png", &image),
        words(&[
            "convert",
            "-depth",
            "32",
            "-define",
            "quantum:format=floating-point",
            "-size",
            "2x1",
            "gray:-",
            "png:-"
        ])
    );
    assert_eq!(
        Magick::gm().encode_command("jpg", &image)[..2],
        words(&["gm", "convert"])[..]
    );
}

#[test]
fn profiles_differ_in_the_first_words_only() {
    let image = ImageBuf::<u16, Rgba>::new(3, 2, vec![0; 24]).unwrap();
    let (im, gm) = (Magick::im(), Magick::gm());
    assert_eq!(im.identify_command()[1..], gm.identify_command()[2..]);
    assert_eq!(im.read_command::<u16, Rgba>()[1..], gm.read_command::<u16, Rgba>()[2..]);
    assert_eq!(im.write_command(&image)[1..], gm.write_command(&image)[2..]);
    assert_eq!(im.encode_command("png", &image)[1..], gm.encode_command("png", &image)[2..]);
    assert_eq!(gm.read_command::<u16, Rgba>()[..2], line(&["gm", "convert"])[..]);
    assert_eq!(im.read_command::<u16, Rgba>()[..1], line(&["convert"])[..]);
}

#[test]
fn the_default_profile_is_imagemagick() {
    let m = Magick::default();
    assert_eq!(m.identify_command(), Magick::im().identify_command());
    assert_eq!(m.read_command::<u8, Rgb>(), line(&["convert", "<path>", "-depth", "8", "rgb:-"]));
}

#[test]
fn write_plan_feeds_the_raw_bytes_of_the_image() {
    let image = ImageBuf::<u16, Gray>::new(2, 1, vec![0x0102, 0x0304]).unwrap();
    let (cmd, input) = Magick::im().write_plan(&image);
    assert_eq!(cmd, line(&["convert", "-depth", "16", "-size", "2x1", "gray:-", "<path>"]));
    assert_eq!(input, vec![2, 1, 4, 3]);
}

#[test]
fn encode_plan_feeds_the_raw_bytes_of_the_image() {
    let image = ImageBuf::<u8, Rgb>::new(1, 2, vec![1, 2, 3, 4, 5, 6]).unwrap();
    let (cmd, input) = Magick::gm().encode_plan("png", &image);
    assert_eq!(
        cmd,
        words(&["gm", "convert", "-depth", "8", "-size", "1x2", "rgb:-", "png:-"])
    );
    assert_eq!(input, vec![1, 2, 3, 4, 5, 6]);
}

#[test]
fn a_copy_of_a_profile_gives_the_same_commands() {
    let gm = Magick::gm();
    let copy = gm.clone();
    assert_eq!(copy.identify_command(), gm.identify_command());
    assert_eq!(copy.read_command::<u8, Rgb>(), gm.read_command::<u8, Rgb>());
}

#[test]
fn shape_of_two_numbers() {
    assert_eq!(shape("640 480"), Some((640, 480)));
    assert_eq!(shape("640 480\n"), Some((640, 480)));
    assert_eq!(shape("1 1"), Some((1, 1)));
    assert_eq!(shape("+3 +4"), Some((3, 4)));
    assert_eq!(shape("007 08"), Some((7, 8)));
}

#[test]
fn shape_wants_both_numbers_above_zero() {
    assert_eq!(shape("0 480"), None);
    assert_eq!(shape("0 5"), None);
    assert_eq!(shape("1 0"), None);
    assert_eq!(shape("0 0"), None);
    assert_eq!(shape("+0 5"), None);
    assert_eq!(shape("5 000"), None);
}

#[test]
fn shape_looks_at_the_first_two_fields_only() {
    assert_eq!(shape("640 480 rest is not read"), Some((640, 480)));
    assert_eq!(shape("640 480 -1"), Some((640, 480)));
}

#[test]
fn shape_takes_any_white_space_between_fields() {
    assert_eq!(shape("640\t480"), Some((640, 480)));
    assert_eq!(shape("  640   480  "), Some((640, 480)));
    assert_eq!(shape("640\n480"), Some((640, 480)));
    assert_eq!(shape("640\u{a0}480"), Some((640, 480)));
}

#[test]
fn shape_of_malformed_text() {
    assert_eq!(shape("640"), None);
    assert_eq!(shape(""), None);
    assert_eq!(shape("   "), None);
    assert_eq!(shape("640 "), None);
    assert_eq!(shape("640x480"), None);
    assert_eq!(shape("640 abc"), None);
    assert_eq!(shape("abc 480"), None);
    assert_eq!(shape("-640 480"), None);
    assert_eq!(shape("640 480x"), None);
    assert_eq!(shape("6.4 480"), None);
}

#[test]
fn shape_of_numbers_that_do_not_fit() {
    let big = format!("{}0 1", usize::MAX);
    assert_eq!(shape(&big), None);
    let fits = format!("{} 1", usize::MAX);
    assert_eq!(shape(&fits), Some((usize::MAX, 1)));
}

#[test]
fn shape_of_output_wants_utf8() {
    assert_eq!(shape_of_output(b"640 480"), Some((640, 480)));
    assert_eq!(shape_of_output(b"640 480 \xff"), None);
    assert_eq!(shape_of_output(b"\xc3\x28 640 480"), None);
    assert_eq!(shape_of_output(b"640 480 \xed\xa0\x80"), None);
    assert_eq!(shape_of_output(b"640 480 \xc0\x80"), None);
    assert_eq!(shape_of_output(b"640 480 \xf4\x90\x80\x80"), None);
    assert_eq!(shape_of_output(b"640 480 \xe2\x82"), None);
    assert_eq!(shape_of_output(b"640 480 \xf4\x8f\xbf\xbf"), Some((640, 480)));
    assert_eq!(shape_of_output(b"640\xe2\x80\x83480"), Some((640, 480)));
    assert_eq!(shape_of_output("640 480 \u{e9}".as_bytes()), Some((640, 480)));
    assert_eq!(shape_of_output(b""), None);
}

#[test]
fn get_image_shape_of_640_480() {
    let m = Magick::im();
    assert_eq!(m.get_image_shape(&exited(true, b"640 480")), Ok((640, 480)));
}

#[test]
fn get_image_shape_of_malformed_output() {
    let m = Magick::im();
    assert_eq!(m.get_image_shape(&exited(true, b"640")), Err(Error::InvalidImageShape));
    assert_eq!(m.get_image_shape(&exited(true, b"")), Err(Error::InvalidImageShape));
    assert_eq!(
        m.get_image_shape(&exited(true, b"640 480\xff")),
        Err(Error::InvalidImageShape)
    );
}

#[test]
fn get_image_shape_of_a_zero_dimension() {
    let m = Magick::im();
    assert_eq!(m.get_image_shape(&exited(true, b"0 480")), Err(Error::InvalidImageShape));
    assert_eq!(m.get_image_shape(&exited(true, b"0 5")), Err(Error::InvalidImageShape));
    assert_eq!(m.get_image_shape(&exited(true, b"640 0")), Err(Error::InvalidImageShape));
}

#[test]
fn read_plan_after_a_good_query_is_the_shape_and_the_read_command() {
    let m = Magick::gm();
    let (shape, cmd) = m.read_plan::<u16, Rgb>(&exited(true, b"640 480\n")).unwrap();
    assert_eq!(shape, (640, 480));
    assert_eq!(cmd, m.read_command::<u16, Rgb>());
    assert_eq!(cmd, line(&["gm", "convert", "<path>", "-depth", "16", "rgb:-"]));
}

#[test]
fn read_plan_after_a_failed_query_is_its_error_and_no_command() {
    let m = Magick::im();
    for query in [
        Run::SpawnFailed,
        Run::WriteFailed,
        Run::WaitFailed,
        Run::ReadFailed,
        exited(true, b"640"),
        exited(true, b"0 480"),
        exited(true, b"640 480 \xff"),
    ] {
        assert_eq!(m.read_plan::<u8, Rgb>(&query), Err(Error::InvalidImageShape));
    }
}

#[test]
fn get_image_shape_of_a_run_that_did_not_end() {
    let m = Magick::gm();
    for run in [Run::SpawnFailed, Run::WriteFailed, Run::WaitFailed, Run::ReadFailed] {
        assert_eq!(m.get_image_shape(&run), Err(Error::InvalidImageShape));
    }
}

#[test]
fn get_image_shape_does_not_ask_for_success() {
    let m = Magick::im();
    assert_eq!(m.get_image_shape(&exited(false, b"3 4")), Ok((3, 4)));
}

#[test]
fn read_takes_the_output_as_pixels() {
    let m = Magick::im();
    let out: Vec<u8> = (0..12).collect();
    let image = m.read::<u8, Rgb>(2, 2, &exited(true, &out)).unwrap();
    assert_eq!(image.shape(), (2, 2, 3));
    assert_eq!(image.data(), &out);
    let image = m.read::<u16, Gray>(3, 2, &exited(true, &out)).unwrap();
    assert_eq!(image.data(), &vec![0x0100u16, 0x0302, 0x0504, 0x0706, 0x0908, 0x0b0a]);
}

#[test]
fn read_refuses_output_of_another_size() {
    let m = Magick::im();
    assert_eq!(
        m.read::<u8, Rgb>(2, 2, &exited(true, &[0; 11])).err(),
        Some(Error::DataSizeMismatch)
    );
    assert_eq!(
        m.read::<u8, Rgb>(2, 2, &exited(true, &[0; 13])).err(),
        Some(Error::DataSizeMismatch)
    );
    assert_eq!(
        m.read::<u16, Gray>(1, 1, &exited(true, &[0; 3])).err(),
        Some(Error::DataSizeMismatch)
    );
    assert_eq!(
        m.read::<u16, Gray>(1, 1, &exited(true, &[])).err(),
        Some(Error::DataSizeMismatch)
    );
}

#[test]
fn read_of_a_run_that_did_not_succeed() {
    let m = Magick::im();
    for run in [
        Run::SpawnFailed,
        Run::WriteFailed,
        Run::WaitFailed,
        Run::ReadFailed,
        exited(false, &[0; 12]),
    ] {
        assert_eq!(m.read::<u8, Rgb>(2, 2, &run).err(), Some(Error::InvalidImageData));
    }
}

#[test]
fn write_of_each_run() {
    let m = Magick::im();
    assert_eq!(m.write(&exited(true, b"")), Ok(()));
    assert_eq!(m.write(&exited(true, b"noise")), Ok(()));
    assert_eq!(m.write(&exited(false, b"")), Err(Error::UnableToExecuteCommand));
    assert_eq!(m.write(&Run::SpawnFailed), Err(Error::UnableToExecuteCommand));
    assert_eq!(m.write(&Run::WriteFailed), Err(Error::ErrorWritingImage));
    assert_eq!(m.write(&Run::WaitFailed), Err(Error::UnableToExecuteCommand));
    assert_eq!(m.write(&Run::ReadFailed), Err(Error::InvalidImageData));
}

#[test]
fn encode_of_each_run() {
    let m = Magick::gm();
    assert_eq!(m.encode(exited(true, b"\x89PNG")), Ok(b"\x89PNG".to_vec()));
    assert_eq!(m.encode(exited(true, b"")), Ok(vec![]));
    assert_eq!(m.encode(exited(false, b"\x89PNG")), Err(Error::UnableToExecuteCommand));
    assert_eq!(m.encode(Run::SpawnFailed), Err(Error::UnableToExecuteCommand));
    assert_eq!(m.encode(Run::WriteFailed), Err(Error::ErrorWritingImage));
    assert_eq!(m.encode(Run::WaitFailed), Err(Error::UnableToExecuteCommand));
    assert_eq!(m.encode(Run::ReadFailed), Err(Error::InvalidImageData));
}

#[test]
fn failure_of_each_run() {
    assert_eq!(Run::SpawnFailed.failure(), Error::UnableToExecuteCommand);
    assert_eq!(Run::WriteFailed.failure(), Error::ErrorWritingImage);
    assert_eq!(Run::WaitFailed.failure(), Error::UnableToExecuteCommand);
    assert_eq!(Run::ReadFailed.failure(), Error::InvalidImageData);
    assert_eq!(exited(false, b"").failure(), Error::UnableToExecuteCommand);
}

#[test]
fn raw_pixels_written_and_read_back_are_the_same() {
    // A tool that hands the raw pixels through unchanged stands for a
    // lossless format.
    let m = Magick::im();
    let data: Vec<u8> = (0..=255).cycle().take(5 * 7 * 3).collect();
    let image = ImageBuf::<u8, Rgb>::new(5, 7, data.clone()).unwrap();
    let encoded = m.encode(exited(true, &image.buffer())).unwrap();
    let (w, h) = m.get_image_shape(&exited(true, b"5 7\n")).unwrap();
    let again = m.read::<u8, Rgb>(w, h, &exited(true, &encoded)).unwrap();
    assert_eq!(again.shape(), image.shape());
    assert_eq!(again.data(), &data);
}

#[test]
fn raw_floats_written_and_read_back_are_the_same() {
    let m = Magick::gm();
    let data: Vec<Float64> =
        [0.0f64, -1.5, f64::MAX, f64::NAN].iter().map(|x| Float64 { bits: x.to_bits() }).collect();
    let image = ImageBuf::<Float64, Gray>::new(2, 2, data.clone()).unwrap();
    let again = m.read::<Float64, Gray>(2, 2, &exited(true, &image.buffer())).unwrap();
    assert_eq!(again.data(), &data);
}
