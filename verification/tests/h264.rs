use pomme_screenshare::client::receive::{decode_message, decode_picture, open_decoder};
use pomme_screenshare::h264::{has_fitting_crop, has_fitting_crops, unescape};

/// Writes the bits of a header.
struct Header {
    bits: Vec<bool>,
}

impl Header {
    /// The front of a parameter set: profile, flags and level.
    fn new(profile: u32) -> Header {
        let mut header = Header { bits: Vec::new() };
        header.fixed(profile, 8);
        header.fixed(0, 8);
        header.fixed(31, 8);
        header
    }

    fn fixed(&mut self, value: u32, n: u32) {
        for k in (0..n).rev() {
            self.bits.push(value / 2u32.pow(k) % 2 == 1);
        }
    }

    fn number(&mut self, value: u32) {
        let zeros = (value + 1).ilog2();
        self.fixed(0, zeros);
        self.fixed(value + 1, zeros + 1);
    }

    fn numbers(&mut self, values: &[u32]) {
        for &value in values {
            self.number(value);
        }
    }

    /// A picture of this many blocks, and its crop, if there is one.
    fn size(&mut self, width: u32, height: u32, crop: Option<[u32; 4]>) {
        self.numbers(&[width - 1, height - 1]);
        self.fixed(0b11, 2);
        self.fixed(u32::from(crop.is_some()), 1);
        if let Some(crop) = crop {
            self.numbers(&crop);
        }
        self.fixed(0b01, 2);
    }

    fn bytes(&self) -> Vec<u8> {
        self.bits
            .chunks(8)
            .map(|bits| {
                (0..8).fold(0, |byte, k| byte * 2 + u8::from(bits.get(k).copied().unwrap_or(false)))
            })
            .collect()
    }
}

/// A parameter set for four by three blocks.
fn plain_set(crop: Option<[u32; 4]>) -> Vec<u8> {
    let mut header = Header::new(66);
    header.numbers(&[0, 0, 2, 1]);
    header.fixed(0, 1);
    header.size(4, 3, crop);
    header.bytes()
}

fn unit(kind: u8, set: &[u8]) -> Vec<u8> {
    let mut bytes = vec![0, 0, 0, 1, kind];
    bytes.extend_from_slice(set);
    bytes
}

#[test]
fn a_crop_lies_inside_its_picture() {
    assert!(has_fitting_crop(&plain_set(None)));
    assert!(has_fitting_crop(&plain_set(Some([0, 0, 0, 0]))));
    assert!(has_fitting_crop(&plain_set(Some([32, 0, 0, 24]))));
    assert!(has_fitting_crop(&plain_set(Some([15, 17, 24, 0]))));
    assert!(!has_fitting_crop(&plain_set(Some([16, 17, 0, 0]))));
    assert!(!has_fitting_crop(&plain_set(Some([0, 0, 0, 25]))));
    assert!(!has_fitting_crop(&plain_set(Some([0, 0, 20, 5]))));
    assert!(!has_fitting_crop(&plain_set(Some([70000, 0, 0, 0]))));
}

#[test]
fn a_set_that_cannot_be_read_does_not_fit() {
    assert!(!has_fitting_crop(&[66, 0, 31]));
    assert!(!has_fitting_crop(&[66, 0, 31, 0, 0, 0, 0, 0, 255]));
    let set = plain_set(Some([15, 17, 24, 0]));
    assert!(!has_fitting_crop(&set[..set.len() - 2]));
    assert!(has_fitting_crop(&[]));
    assert!(has_fitting_crop(&[110, 0, 31]));
}

#[test]
fn pictures_can_be_put_in_order_by_offsets() {
    for (offset, fits) in [(12, true), (13, false)] {
        let mut header = Header::new(77);
        header.numbers(&[0, 0, 1]);
        header.fixed(1, 1);
        header.numbers(&[3, 4, 5, 1, 2, 3, 4, 5, 1]);
        header.fixed(0, 1);
        header.size(2, 3, Some([0, 0, offset, 12]));
        assert_eq!(has_fitting_crop(&header.bytes()), fits);
    }
    for (offset, fits) in [(12, true), (13, false)] {
        let mut header = Header::new(88);
        header.numbers(&[0, 4, 0, 6, 1]);
        header.fixed(0, 1);
        header.size(2, 3, Some([0, 0, offset, 12]));
        assert_eq!(has_fitting_crop(&header.bytes()), fits);
    }
}

#[test]
fn colours_can_be_scaled() {
    for (offset, fits) in [(8, true), (9, false)] {
        let mut header = Header::new(100);
        header.numbers(&[0, 1, 0, 0]);
        header.fixed(0, 1);
        header.fixed(1, 1);
        // A list of sixteen equal scales.
        header.fixed(1, 1);
        header.numbers(&[0; 16]);
        // A list that ends at once: a scale of eight, less eight.
        header.fixed(1, 1);
        header.number(16);
        // A list that ends after the scales nine and eleven.
        header.fixed(1, 1);
        header.numbers(&[1, 3, 22]);
        header.fixed(0, 4);
        // A list of sixty-four scales, each one more.
        header.fixed(1, 1);
        header.numbers(&[1; 64]);
        header.numbers(&[0, 2, 1]);
        header.fixed(0, 1);
        header.size(1, 1, Some([offset, 0, 0, 0]));
        assert_eq!(has_fitting_crop(&header.bytes()), fits);
    }
}

#[test]
fn bytes_that_hide_marks_are_dropped() {
    assert_eq!(unescape(&[]), []);
    assert_eq!(unescape(&[1, 0, 0, 3, 1, 7]), [1, 0, 0, 1, 7]);
    assert_eq!(unescape(&[0, 0, 3, 0, 0, 3]), [0, 0, 0, 0]);
    assert_eq!(unescape(&[9, 0, 0, 3, 4, 5]), [9, 4, 5]);
    assert_eq!(unescape(&[0, 0, 2, 0, 3]), [0, 0, 2, 0, 3]);
}

#[test]
fn every_set_of_a_packet_counts() {
    let good = plain_set(Some([1, 1, 1, 1]));
    let bad = plain_set(Some([16, 17, 0, 0]));
    assert!(has_fitting_crops(&[]));
    assert!(has_fitting_crops(&bad));
    assert!(has_fitting_crops(&unit(0x67, &good)));
    assert!(!has_fitting_crops(&unit(0x67, &bad)));
    assert!(!has_fitting_crops(&unit(0x6f, &bad)));
    assert!(has_fitting_crops(&unit(0x68, &bad)));
    assert!(has_fitting_crops(&unit(0xe7, &bad)));
    let mut both = unit(0x67, &good);
    both.extend(unit(0x68, &[1, 2, 3]));
    both.extend(unit(0x67, &bad));
    assert!(!has_fitting_crops(&both));
    assert!(has_fitting_crops(&[0, 0, 1]));
}

#[test]
fn a_crop_beyond_the_picture_is_no_video() {
    let mut decoder = open_decoder().unwrap();
    let packet = unit(0x67, &plain_set(Some([16, 17, 0, 0])));
    assert!(decode_picture(&mut decoder, &packet).is_none());
    let mut message = vec![1];
    message.extend(packet);
    assert!(matches!(decode_message(&mut decoder, &message, &|_| 0), Ok(None)));
}
