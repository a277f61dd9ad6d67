use gazo::{ColorType, Histogram, ImgRGBA};

#[test]
fn test_get_historgram_count() {
    let mut data = [0u32; 256];

    for i in 0..256 {
        data[i] = i as u32;
    }

    let histogram = Histogram::from(data);

    assert_eq!(histogram.get_count(1), 1);
}

#[test]
fn test_get_historgram_low_and_high() {
    let mut data = [0u32; 256];

    for i in 0..256 {
        data[i] = i as u32;
    }

    let histogram = Histogram::from(data);

    let low = histogram.get_low();
    let high = histogram.get_high();

    assert_eq!(low, (1, 1));
    assert_eq!(high, (255, 255));
}

#[test]
fn test_cumulate_histogram() {
    let mut data = [0u32; 256];

    for i in 0..256 {
        data[i] = i as u32;
    }

    let mut histogram = Histogram::from(data);

    histogram.cumulate();

    assert_eq!(
        (histogram.get_count(1), histogram.get_count(2), histogram.get_count(3)),
        (1, 3, 6)
    );
}

#[test]
fn get_count_reads_every_bin() {
    let mut data = [0u32; 256];
    for i in 0..256 {
        data[i] = 1000 + i as u32;
    }
    let histogram = Histogram::from(data);
    assert_eq!(histogram.get_count(0), 1000);
    assert_eq!(histogram.get_count(128), 1128);
    assert_eq!(histogram.get_count(255), 1255);
}

#[test]
fn low_and_high_of_an_all_zero_histogram_are_the_sentinel() {
    let histogram = Histogram::from([0u32; 256]);
    assert_eq!(histogram.get_low(), (0, 0));
    assert_eq!(histogram.get_high(), (0, 0));
}

#[test]
fn low_and_high_find_the_outermost_bins() {
    let mut data = [0u32; 256];
    data[0] = 4;
    data[255] = 9;
    let histogram = Histogram::from(data);
    assert_eq!(histogram.get_low(), (4, 0));
    assert_eq!(histogram.get_high(), (9, 255));
}

#[test]
fn low_and_high_meet_on_a_single_bin() {
    let mut data = [0u32; 256];
    data[77] = 5;
    let histogram = Histogram::from(data);
    assert_eq!(histogram.get_low(), (5, 77));
    assert_eq!(histogram.get_high(), (5, 77));
}

#[test]
fn cumulate_gives_prefix_sums_and_keeps_the_first_bin() {
    let mut data = [0u32; 256];
    data[0] = 3;
    data[1] = 4;
    data[2] = 0;
    data[3] = 10;
    data[255] = 1;
    let mut histogram = Histogram::from(data);
    histogram.cumulate();
    assert_eq!(histogram.get_count(0), 3);
    assert_eq!(histogram.get_count(1), 7);
    assert_eq!(histogram.get_count(2), 7);
    assert_eq!(histogram.get_count(3), 17);
    assert_eq!(histogram.get_count(254), 17);
    assert_eq!(histogram.get_count(255), 18);
}

#[test]
fn cumulate_reaches_the_total_in_the_last_bin() {
    let mut data = [0u32; 256];
    for i in 0..256 {
        data[i] = i as u32;
    }
    let mut histogram = Histogram::from(data);
    histogram.cumulate();
    assert_eq!(histogram.get_count(255), 32640);
}

#[test]
fn cumulate_twice_sums_the_sums() {
    let mut data = [0u32; 256];
    for i in 0..256 {
        data[i] = i as u32;
    }
    let mut histogram = Histogram::from(data);
    histogram.cumulate();
    histogram.cumulate();
    assert_eq!(
        (histogram.get_count(1), histogram.get_count(2), histogram.get_count(3)),
        (1, 4, 10)
    );
}

#[test]
fn cumulate_takes_a_total_of_exactly_the_largest_count() {
    let mut data = [0u32; 256];
    data[0] = u32::MAX - 1;
    data[200] = 1;
    let mut histogram = Histogram::from(data);
    histogram.cumulate();
    assert_eq!(histogram.get_count(199), u32::MAX - 1);
    assert_eq!(histogram.get_count(255), u32::MAX);
}

#[test]
fn clone_of_a_histogram_has_the_same_counts() {
    let mut data = [0u32; 256];
    data[12] = 34;
    let histogram = Histogram::from(data);
    let copy = histogram.clone();
    assert_eq!(copy.get_count(12), 34);
    assert_eq!(copy.get_low(), (34, 12));
}

/// An image of one row in which, for each intensity `i`, `i` pixels have
/// red `i`, green `255 - i` and blue 7.
fn staircase() -> ImgRGBA {
    let mut bytes: Vec<u8> = Vec::new();
    for i in 0..256u32 {
        for _ in 0..i {
            bytes.push(i as u8);
            bytes.push((255 - i) as u8);
            bytes.push(7);
        }
    }
    ImgRGBA::from_bytes(&bytes, ColorType::RGB, 32640, 1).unwrap()
}

#[test]
fn histogram_of_an_image_counts_each_intensity() {
    let img = staircase();
    let (red, green, blue) = img.histogram();

    assert_eq!(red.get_count(0), 0);
    assert_eq!(red.get_count(1), 1);
    assert_eq!(red.get_count(200), 200);
    assert_eq!(red.get_low(), (1, 1));
    assert_eq!(red.get_high(), (255, 255));

    assert_eq!(green.get_count(255), 0);
    assert_eq!(green.get_count(254), 1);
    assert_eq!(green.get_count(0), 255);
    assert_eq!(green.get_low(), (255, 0));
    assert_eq!(green.get_high(), (1, 254));

    assert_eq!(blue.get_count(7), 32640);
    assert_eq!(blue.get_count(6), 0);
    assert_eq!(blue.get_low(), (32640, 7));
    assert_eq!(blue.get_high(), (32640, 7));
}

#[test]
fn cumulated_histogram_of_an_image_holds_prefix_sums() {
    let img = staircase();
    let (mut red, _, _) = img.histogram();
    red.cumulate();
    assert_eq!((red.get_count(1), red.get_count(2), red.get_count(3)), (1, 3, 6));
}

#[test]
fn bins_of_each_channel_sum_to_the_pixel_count() {
    let img = staircase();
    let (width, height) = img.dimensions();
    let pixels = width as u64 * height as u64;
    let (red, green, blue) = img.histogram();
    for histogram in [red, green, blue] {
        let mut sum: u64 = 0;
        for i in 0..=255u8 {
            sum += histogram.get_count(i) as u64;
        }
        assert_eq!(sum, pixels);
    }
}

#[test]
fn histogram_does_not_count_alpha() {
    let bytes: [u8; 8] = [1, 2, 3, 200, 1, 2, 3, 100];
    let img = ImgRGBA::from_bytes(&bytes, ColorType::RGBA, 2, 1).unwrap();
    let (red, green, blue) = img.histogram();
    assert_eq!(red.get_low(), (2, 1));
    assert_eq!(red.get_high(), (2, 1));
    assert_eq!(green.get_low(), (2, 2));
    assert_eq!(blue.get_high(), (2, 3));
    assert_eq!(red.get_count(200), 0);
    assert_eq!(green.get_count(100), 0);
}
