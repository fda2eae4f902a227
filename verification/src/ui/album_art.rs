use vstd::prelude::*;

verus! {

/// A pixel as the decoder hands it out: column, row, red, green, blue.
pub type ArtPixel = (u32, u32, u8, u8, u8);

/// The colour of one cell of the ascii art (each cell is a full block in that colour).
#[derive(Clone, Copy, PartialEq, Eq, Structural)]
pub struct Rgb {
    pub r: u8,
    pub g: u8,
    pub b: u8,
}

/// The pixels of the image in `bytes`, decoded and resized to `width` by `height` with
/// nearest-neighbour sampling, in the decoder's order; `None` where the bytes do not decode.
pub uninterp spec fn decoded_art_pixels(bytes: Seq<u8>, width: u32, height: u32) -> Option<Seq<ArtPixel>>;

/// Decodes an image with `image::load_from_memory`, resizes it exactly to `width` by
/// `height` with `DynamicImage::resize_exact` and `FilterType::Nearest`, and lists its
/// pixels with `GenericImageView::pixels`, keeping red, green and blue. The result is
/// named, not stated: it is `None` exactly where the decoder returns an error, and otherwise
/// what decoding, resampling and pixel order give, a function of the three arguments alone.
#[verifier::external_body]
fn decode_resized_pixels(bytes: &[u8], width: u32, height: u32) -> (pixels: Option<Vec<ArtPixel>>)
    ensures
        match pixels {
            Some(v) => decoded_art_pixels(bytes@, width, height) == Some(v@),
            None => decoded_art_pixels(bytes@, width, height) is None,
        },
{
    match image::load_from_memory(bytes) {
        Ok(raw_art) => {
            let resized = raw_art.resize_exact(width, height, image::imageops::FilterType::Nearest);
            Some(
                image::GenericImageView::pixels(&resized).map(
                    |p| (p.0, p.1, p.2.0[0], p.2.0[1], p.2.0[2]),
                ).collect(),
            )
        },
        Err(_) => None,
    }
}

/// The cell a pixel turns into.
pub open spec fn art_cell(p: ArtPixel) -> Rgb {
    Rgb { r: p.2, g: p.3, b: p.4 }
}

/// The row the last of `pixels` lies in; 0 before any pixel.
pub open spec fn current_row(pixels: Seq<ArtPixel>) -> u32 {
    if pixels.len() == 0 {
        0
    } else {
        pixels.last().1
    }
}

/// The rows of ascii art made of `pixels`: one row to begin with, and a new row each time
/// a pixel's row differs from the row of the pixel before it (the first pixel is compared
/// with row 0).
pub open spec fn art_rows(pixels: Seq<ArtPixel>) -> Seq<Seq<Rgb>>
    decreases pixels.len(),
{
    if pixels.len() == 0 {
        seq![Seq::<Rgb>::empty()]
    } else {
        let rows = art_rows(pixels.drop_last());
        let p = pixels.last();
        if p.1 != current_row(pixels.drop_last()) {
            rows.push(seq![art_cell(p)])
        } else {
            rows.update(rows.len() - 1, rows.last().push(art_cell(p)))
        }
    }
}

/// The rows of a grid of cells, each as a sequence.
pub open spec fn rows_view(rows: Seq<Vec<Rgb>>) -> Seq<Seq<Rgb>> {
    rows.map_values(|row: Vec<Rgb>| row@)
}

proof fn lemma_art_rows_nonempty(pixels: Seq<ArtPixel>)
    ensures
        art_rows(pixels).len() >= 1,
    decreases pixels.len(),
{
    if pixels.len() > 0 {
        lemma_art_rows_nonempty(pixels.drop_last());
    }
}

/// Groups pixels into rows of cells as `art_rows` says.
pub fn pixels_to_rows(pixels: &Vec<ArtPixel>) -> (rows: Vec<Vec<Rgb>>)
    ensures
        rows_view(rows@) == art_rows(pixels@),
{
    let mut done: Vec<Vec<Rgb>> = Vec::new();
    let mut current: Vec<Rgb> = Vec::new();
    let mut y: u32 = 0;
    let n = pixels.len();
    for i in 0..n
        invariant
            n == pixels.len(),
            rows_view(done@).push(current@) == art_rows(pixels@.take(i as int)),
            y == current_row(pixels@.take(i as int)),
    {
        let p = pixels[i];
        let ghost before = pixels@.take(i as int);
        proof {
            assert(pixels@.take(i + 1).drop_last() =~= before);
            assert(pixels@.take(i + 1).last() == p);
            lemma_art_rows_nonempty(before);
        }
        if y != p.1 {
            y = p.1;
            let ghost done_before = done@;
            let finished = current;
            done.push(finished);
            current = Vec::new();
            current.push(Rgb { r: p.2, g: p.3, b: p.4 });
            proof {
                assert(rows_view(done@) =~= rows_view(done_before).push(finished@));
            }
        } else {
            current.push(Rgb { r: p.2, g: p.3, b: p.4 });
        }
        proof {
            assert(rows_view(done@).push(current@) =~= art_rows(pixels@.take(i + 1)));
        }
    }
    done.push(current);
    proof {
        assert(pixels@.take(n as int) =~= pixels@);
        assert(rows_view(done@) =~= art_rows(pixels@));
    }
    done
}

/// A copy of a grid of cells.
pub fn copy_rows(rows: &Vec<Vec<Rgb>>) -> (copy: Vec<Vec<Rgb>>)
    ensures
        rows_view(copy@) == rows_view(rows@),
{
    let mut copy: Vec<Vec<Rgb>> = Vec::new();
    let n = rows.len();
    for i in 0..n
        invariant
            n == rows.len(),
            rows_view(copy@) == rows_view(rows@).take(i as int),
    {
        let row = &rows[i];
        let mut cells: Vec<Rgb> = Vec::new();
        let m = row.len();
        for j in 0..m
            invariant
                m == row.len(),
                cells@ == row@.take(j as int),
        {
            cells.push(row[j]);
            proof {
                assert(cells@ =~= row@.take(j + 1));
            }
        }
        proof {
            assert(cells@ =~= row@);
        }
        let ghost copy_before = copy@;
        copy.push(cells);
        proof {
            assert(rows_view(copy@) =~= rows_view(copy_before).push(cells@));
            assert(rows_view(copy@) =~= rows_view(rows@).take(i + 1));
        }
    }
    proof {
        assert(rows_view(rows@).take(n as int) =~= rows_view(rows@));
    }
    copy
}

/// Turns album covers into rows of coloured cells.
pub struct AlbumArtGenerator {}

impl AlbumArtGenerator {
    /// The ascii art of the cover in `raw_art_bytes`: the image resized to `width` columns
    /// by `width / 2` rows, one cell per pixel; `None` where the bytes are not an image.
    pub fn generate_ascii_art(raw_art_bytes: &[u8], width: u32) -> (art: Option<Vec<Vec<Rgb>>>)
        ensures
            match decoded_art_pixels(raw_art_bytes@, width, width / 2) {
                Some(pixels) => art is Some && rows_view(art.unwrap()@) == art_rows(pixels),
                None => art is None,
            },
    {
        match decode_resized_pixels(raw_art_bytes, width, width / 2) {
            Some(pixels) => Some(pixels_to_rows(&pixels)),
            None => None,
        }
    }
}


/// Law: the ascii art keeps every pixel, in order: read row after row, its cells are the
/// pixels' colours.
pub proof fn law_art_keeps_every_pixel(pixels: Seq<ArtPixel>)
    ensures
        art_rows(pixels).flatten() == pixels.map_values(|p: ArtPixel| art_cell(p)),
    decreases pixels.len(),
{
    if pixels.len() == 0 {
        let rows = art_rows(pixels);
        rows.lemma_flatten_singleton();
        assert(rows.flatten() =~= pixels.map_values(|p: ArtPixel| art_cell(p)));
    } else {
        let before = pixels.drop_last();
        let rows = art_rows(before);
        let p = pixels.last();
        law_art_keeps_every_pixel(before);
        lemma_art_rows_nonempty(before);
        assert(pixels.map_values(|q: ArtPixel| art_cell(q)) =~= before.map_values(
            |q: ArtPixel| art_cell(q),
        ).push(art_cell(p)));
        if p.1 != current_row(before) {
            rows.lemma_flatten_push(seq![art_cell(p)]);
        } else {
            let n = rows.len() - 1;
            let init = rows.drop_last();
            assert(rows =~= init.push(rows.last()));
            assert(rows.update(n, rows.last().push(art_cell(p))) =~= init.push(
                rows.last().push(art_cell(p)),
            ));
            init.lemma_flatten_push(rows.last().push(art_cell(p)));
            init.lemma_flatten_push(rows.last());
        }
    }
}

/// The cells of a run of pixels, one per pixel.
pub open spec fn cells_of(run: Seq<ArtPixel>) -> Seq<Rgb> {
    run.map_values(|p: ArtPixel| art_cell(p))
}

/// Whether every pixel of `run` lies in image row `y`.
pub open spec fn all_on_row(run: Seq<ArtPixel>, y: u32) -> bool {
    forall|k: int| 0 <= k < run.len() ==> (#[trigger] run[k]).1 == y
}

proof fn lemma_first_image_row(run: Seq<ArtPixel>)
    requires
        all_on_row(run, 0),
    ensures
        art_rows(run) == seq![cells_of(run)],
    decreases run.len(),
{
    if run.len() == 0 {
        assert(cells_of(run) =~= Seq::<Rgb>::empty());
    } else {
        let before = run.drop_last();
        assert(all_on_row(before, 0)) by {
            assert forall|k: int| 0 <= k < before.len() implies (#[trigger] before[k]).1 == 0 by {
                assert(before[k] == run[k]);
            }
        }
        lemma_first_image_row(before);
        assert(run.last() == run[run.len() - 1]);
        assert(current_row(before) == 0) by {
            if before.len() > 0 {
                assert(before.last() == run[before.len() - 1]);
            }
        }
        assert(cells_of(run) =~= cells_of(before).push(art_cell(run.last())));
        assert(art_rows(run) =~= seq![cells_of(run)]);
    }
}

proof fn lemma_next_image_row(pixels: Seq<ArtPixel>, run: Seq<ArtPixel>, y: u32)
    requires
        pixels.len() > 0,
        current_row(pixels) != y,
        run.len() > 0,
        all_on_row(run, y),
    ensures
        art_rows(pixels + run) == art_rows(pixels).push(cells_of(run)),
    decreases run.len(),
{
    let whole = pixels + run;
    assert(whole.drop_last() =~= pixels + run.drop_last());
    assert(whole.last() == run[run.len() - 1]);
    if run.len() == 1 {
        assert(pixels + run.drop_last() =~= pixels);
        assert(cells_of(run) =~= seq![art_cell(run[0])]);
    } else {
        let before = run.drop_last();
        assert(all_on_row(before, y)) by {
            assert forall|k: int| 0 <= k < before.len() implies (#[trigger] before[k]).1 == y by {
                assert(before[k] == run[k]);
            }
        }
        lemma_next_image_row(pixels, before, y);
        assert((pixels + before).last() == run[run.len() - 2]);
        assert(cells_of(run) =~= cells_of(before).push(art_cell(run.last())));
        let rows = art_rows(pixels + before);
        assert(rows.last() == cells_of(before));
        assert(rows.update(rows.len() - 1, rows.last().push(art_cell(run.last())))
            =~= art_rows(pixels).push(cells_of(run)));
    }
}

/// Law: the ascii art has one row per image row. Where the pixels come as image rows 0, 1,
/// 2, ... one after another (each row non-empty, every pixel of the r-th lying in row r),
/// the art's rows are exactly those image rows, a cell for each pixel: as many rows as the
/// image has, each as long as its image row.
pub proof fn law_one_art_row_per_image_row(image_rows: Seq<Seq<ArtPixel>>)
    requires
        1 <= image_rows.len() <= 0x1_0000_0000,
        forall|r: int|
            0 <= r < image_rows.len() ==> (#[trigger] image_rows[r]).len() > 0 && all_on_row(
                image_rows[r],
                r as u32,
            ),
    ensures
        art_rows(image_rows.flatten()) == image_rows.map_values(|run: Seq<ArtPixel>| cells_of(run)),
        art_rows(image_rows.flatten()).len() == image_rows.len(),
        forall|r: int|
            0 <= r < image_rows.len() ==> #[trigger] art_rows(image_rows.flatten())[r].len()
                == image_rows[r].len(),
    decreases image_rows.len(),
{
    let n = image_rows.len();
    if n == 1 {
        image_rows.lemma_flatten_singleton();
        assert(all_on_row(image_rows[0], 0));
        lemma_first_image_row(image_rows[0]);
        assert(image_rows.map_values(|run: Seq<ArtPixel>| cells_of(run)) =~= seq![
            cells_of(image_rows[0]),
        ]);
    } else {
        let init = image_rows.drop_last();
        let last = image_rows.last();
        assert forall|r: int| 0 <= r < init.len() implies (#[trigger] init[r]).len() > 0
            && all_on_row(init[r], r as u32) by {
            assert(init[r] == image_rows[r]);
        }
        law_one_art_row_per_image_row(init);
        assert(image_rows =~= init.push(last));
        init.lemma_flatten_push(last);
        let pixels = init.flatten();
        let prior = init.drop_last();
        let prev = init.last();
        assert(init =~= prior.push(prev));
        prior.lemma_flatten_push(prev);
        assert(prev == image_rows[n - 2]);
        assert(all_on_row(prev, (n - 2) as u32));
        assert(pixels.last() == prev[prev.len() - 1]);
        assert(current_row(pixels) == (n - 2) as u32);
        assert(last == image_rows[n - 1]);
        assert(all_on_row(last, (n - 1) as u32));
        assert((n - 2) as u32 != (n - 1) as u32);
        lemma_next_image_row(pixels, last, (n - 1) as u32);
        assert(image_rows.map_values(|run: Seq<ArtPixel>| cells_of(run)) =~= init.map_values(
            |run: Seq<ArtPixel>| cells_of(run),
        ).push(cells_of(last)));
    }
    assert forall|r: int| 0 <= r < image_rows.len() implies #[trigger] art_rows(
        image_rows.flatten(),
    )[r].len() == image_rows[r].len() by {
        assert(art_rows(image_rows.flatten())[r] == cells_of(image_rows[r]));
    }
}

} // verus!
