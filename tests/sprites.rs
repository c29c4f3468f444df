use fish_tank::{DecodeError, Dir, Fish, Pixel, Point, PointValue, Size, Sprite, TRANSPARENT};

/// An atlas of 16-bit words: a four-word header per species, then the
/// frames of every species in order.
fn atlas(species: &[(u16, u16, [Vec<u16>; 3])]) -> Vec<u16> {
    let mut words: Vec<u16> = Vec::new();
    let mut offset = 4 * species.len() as u16;
    let mut frames: Vec<u16> = Vec::new();
    for (w, h, fs) in species {
        words.push((w << 8) | h);
        for f in fs.iter() {
            words.push(offset);
            offset += f.len() as u16;
            frames.extend_from_slice(f);
        }
    }
    words.extend_from_slice(&frames);
    words
}

fn small_species() -> (u16, u16, [Vec<u16>; 3]) {
    (
        2,
        2,
        [vec![1, 2, 3, TRANSPARENT], vec![5, 6, 7, 8], vec![9, 10, 11, 12]],
    )
}

#[test]
fn decode_gives_size_and_frames() {
    let words = atlas(&[small_species(), (3, 1, [vec![20, 21, 22], vec![23, 24, 25], vec![26, 27, 28]])]);
    for i in 0..2 {
        let s = Sprite::make_sprite(i, &words).unwrap();
        for f in s.frames.iter() {
            assert_eq!((s.size.width * s.size.height) as usize, f.len());
        }
    }
    let s = Sprite::make_sprite(1, &words).unwrap();
    assert_eq!(s.size, Size::new(3, 1));
    assert_eq!(s.frames[0], &[20, 21, 22]);
    assert_eq!(s.frames[2], &[26, 27, 28]);
    let s = Sprite::make_sprite(0, &words).unwrap();
    assert_eq!(s.size, Size::new(2, 2));
    assert_eq!(s.frames[1], &[5, 6, 7, 8]);
}

#[test]
fn decode_rejects_missing_header() {
    let words = atlas(&[(1, 1, [vec![4], vec![5], vec![6]])]);
    assert_eq!(words.len(), 7);
    assert!(Sprite::make_sprite(0, &words).is_ok());
    assert_eq!(Sprite::make_sprite(1, &words).err(), Some(DecodeError::MissingHeader));
    assert_eq!(Sprite::make_sprite(usize::MAX, &words).err(), Some(DecodeError::MissingHeader));
    assert_eq!(Sprite::make_sprite(0, &words[..3]).err(), Some(DecodeError::MissingHeader));
}

#[test]
fn decode_rejects_empty_sprite() {
    let words = vec![0x0002, 4, 4, 4];
    assert_eq!(Sprite::make_sprite(0, &words).err(), Some(DecodeError::EmptySprite));
    let words = vec![0x0300, 4, 4, 4];
    assert_eq!(Sprite::make_sprite(0, &words).err(), Some(DecodeError::EmptySprite));
}

#[test]
fn decode_rejects_frame_past_end() {
    let mut words = atlas(&[small_species()]);
    words[3] = 14;
    assert_eq!(Sprite::make_sprite(0, &words).err(), Some(DecodeError::FrameOutOfBounds));
    words[3] = 12;
    assert!(Sprite::make_sprite(0, &words).is_ok());
}

#[test]
fn sprite_point_lookup() {
    let words = atlas(&[small_species()]);
    let s = Sprite::make_sprite(0, &words).unwrap();
    assert_eq!(s.get_point(&Point::new(2, 2), 0), PointValue::Opaque(1));
    assert_eq!(s.get_point(&Point::new(3, 2), 0), PointValue::Opaque(2));
    assert_eq!(s.get_point(&Point::new(2, 3), 0), PointValue::Opaque(3));
    assert_eq!(s.get_point(&Point::new(3, 3), 0), PointValue::Transparent);
    assert_eq!(s.get_point(&Point::new(3, 3), 1), PointValue::Opaque(8));
    assert_eq!(s.get_point(&Point::new(2, 3), 2), PointValue::Opaque(11));
}

#[test]
fn sprite_margin_is_transparent() {
    let words = atlas(&[small_species()]);
    let s = Sprite::make_sprite(0, &words).unwrap();
    for x in 0..6 {
        for y in 0..6 {
            let body = (2..4).contains(&x) && (2..4).contains(&y);
            if !body {
                for f in 0..3 {
                    assert_eq!(s.get_point(&Point::new(x, y), f), PointValue::Transparent);
                }
            }
        }
    }
    assert_eq!(s.get_point(&Point::new(i32::MIN, 2), 0), PointValue::Transparent);
    assert_eq!(s.get_point(&Point::new(2, i32::MAX), 0), PointValue::Transparent);
}

#[test]
fn fish_box_is_sprite_plus_padding() {
    let words = atlas(&[small_species()]);
    let s = Sprite::make_sprite(0, &words).unwrap();
    let f = Fish::new(s);
    assert_eq!(f.size, Size::new(6, 6));
    assert_eq!(f.upper_left, Point::new(0, 0));
    assert_eq!(f.direction, Dir::Right);
    assert_eq!(f.animation, 0);
}

#[test]
fn fish_point_lookup_and_mirroring() {
    let words = atlas(&[small_species()]);
    let s = Sprite::make_sprite(0, &words).unwrap();
    let mut right = Fish::new(s);
    right.upper_left = Point::new(10, 20);
    let mut left = right;
    left.direction = Dir::Left;

    assert_eq!(right.get_point(&Point::new(12, 22)), PointValue::Opaque(1));
    assert_eq!(left.get_point(&Point::new(12, 22)), PointValue::Opaque(2));
    assert_eq!(right.get_point(&Point::new(9, 22)), PointValue::OutOfRange);
    assert_eq!(right.get_point(&Point::new(16, 22)), PointValue::OutOfRange);
    assert_eq!(right.get_point(&Point::new(12, 26)), PointValue::OutOfRange);
    assert_eq!(right.get_point(&Point::new(10, 20)), PointValue::Transparent);

    for anim in 0..6u8 {
        right.animation = anim;
        left.animation = anim;
        for x in 10..16 {
            for y in 20..26 {
                let mirrored = 2 * 10 + 6 - 1 - x;
                assert_eq!(left.get_point(&Point::new(x, y)), right.get_point(&Point::new(mirrored, y)));
            }
        }
    }
    right.animation = 2;
    assert_eq!(right.get_point(&Point::new(12, 22)), PointValue::Opaque(5));
    right.animation = 5;
    assert_eq!(right.get_point(&Point::new(12, 22)), PointValue::Opaque(9));
}

#[test]
fn fish_visibility_touching_counts() {
    let words = atlas(&[small_species()]);
    let s = Sprite::make_sprite(0, &words).unwrap();
    let screen = Size::new(160, 80);
    let mut f = Fish::new(s);
    f.upper_left = Point::new(160, 10);
    assert!(f.on_screen(&screen));
    f.upper_left = Point::new(161, 10);
    assert!(!f.on_screen(&screen));
    f.upper_left = Point::new(-6, 10);
    assert!(f.on_screen(&screen));
    f.upper_left = Point::new(-7, 10);
    assert!(!f.on_screen(&screen));
    f.upper_left = Point::new(5, 80);
    assert!(f.on_screen(&screen));
    f.upper_left = Point::new(5, -7);
    assert!(!f.on_screen(&screen));
}

#[test]
fn fish_drift_moves_and_cycles_phase() {
    let words = atlas(&[small_species()]);
    let s = Sprite::make_sprite(0, &words).unwrap();
    let mut f = Fish::new(s);
    f.upper_left = Point::new(50, 40);
    f.drift(true, -1);
    assert_eq!(f.upper_left, Point::new(51, 39));
    assert_eq!(f.animation, 1);
    f.direction = Dir::Left;
    f.drift(true, 0);
    assert_eq!(f.upper_left, Point::new(50, 39));
    f.drift(false, 1);
    assert_eq!(f.upper_left, Point::new(50, 40));
    assert_eq!(f.animation, 3);
    f.drift(false, 0);
    f.drift(false, 0);
    assert_eq!(f.animation, 5);
    f.drift(false, 0);
    assert_eq!(f.animation, 0);
}

#[test]
fn pixel_channels_split_rgb565() {
    let p = |c: u16| Pixel { position: Point::new(0, 0), color: c };
    assert_eq!(p(0xf800).channels(), (31, 0, 0));
    assert_eq!(p(0x07e0).channels(), (0, 63, 0));
    assert_eq!(p(0x001f).channels(), (0, 0, 31));
    assert_eq!(p(0x1234).channels(), (2, 17, 20));
}
