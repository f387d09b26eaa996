use cgats::cgats::Cgats;
use cgats::compare::CgatsVec;
use cgats::data_map::CgatsValue;
use cgats::de_report::{DeList, DeReport};
use cgats::field::{DeMethod, Field};

const CGATS1: &str = "CGATS.17\nBEGIN_DATA_FORMAT\nSAMPLE_ID\tSAMPLE_NAME\tCMYK_C\tCMYK_M\tCMYK_Y\tCMYK_K\nEND_DATA_FORMAT\nBEGIN_DATA\n1\tCyan\t100\t0\t0\t0\n2\tMagenta\t0\t100\t0\t0\n3\tYellow\t0\t0\t100\t0\n4\tBlack\t0\t0\t0\t100\n5\tBlue\t100\t100\t0\t0\n6\tRed\t0\t100\t100\t0\n7\tGreen\t100\t0\t100\t0\n8\t3cBlack\t100\t100\t100\t0\n9\t4cBlack\t100\t100\t100\t100\n10\t3cGray\t50\t40\t40\t0\n11\t1cGray\t0\t0\t0\t50\nEND_DATA\n";

const COLORBURST0: &str = "ColorBurst\nBEGIN_DATA\n0.05\t0.04\t0.03\t0.04\t96.5\t0.1\t-0.2\n1.15\t0.9\t0.8\t0.95\t35.2\t1.3\t-4.7\nEND_DATA\n";

const COLORBURST1: &str = "ColorBurst\nBEGIN_DATA\n0.06\t0.05\t0.04\t0.05\t95.5\t0.2\t-0.3\n1.25\t1.0\t0.9\t1.05\t34.2\t1.4\t-4.9\nEND_DATA\n";

fn delta_doc(values: &[i64]) -> Cgats {
    // a synthetic color-difference result with the given scaled values
    let mut body = String::new();
    for (i, v) in values.iter().enumerate() {
        body.push_str(&format!("{}\t", i));
        let cell = CgatsValue::from_scaled(*v);
        body.push_str(&cell.text);
        body.push('\n');
    }
    let text = format!(
        "CGATS.17\nBEGIN_DATA_FORMAT\nSAMPLE_ID\tDE_2000\nEND_DATA_FORMAT\nBEGIN_DATA\n{}END_DATA\n",
        body
    );
    Cgats::parse(&text).unwrap()
}

// Ported: a report over a real color-difference result prints.
#[test]
fn de_report() {
    let doc = delta_doc(&[10000, 20000, 35000, 5000, 42500]);
    let report = DeReport::new(&doc).unwrap();
    println!("{}", report.render());
    assert_eq!(report.de_method, DeMethod::De2000);
    assert_eq!(report.overall.sample_count, 5);
}

// The split keeps every sample: best and worst together are the whole.
#[test]
fn report_split_sums() {
    for n in [1usize, 2, 3, 10, 99, 100, 101] {
        let values: Vec<i64> = (0..n as i64).map(|i| i * 10000).collect();
        let doc = delta_doc(&values);
        let report = DeReport::new(&doc).unwrap();
        assert_eq!(
            report.best_90.sample_count + report.worst_10.sample_count,
            report.overall.sample_count
        );
        assert_eq!(report.overall.sample_count, n);
    }
}

// A hundred samples at the default fraction split ninety against ten.
#[test]
fn report_split_hundred() {
    let values: Vec<i64> = (0..100i64).map(|i| i * 10000).collect();
    let doc = delta_doc(&values);
    let report = DeReport::new(&doc).unwrap();
    assert_eq!(report.best_90.sample_count, 90);
    assert_eq!(report.worst_10.sample_count, 10);
}

// A single sample still lands in a partition: the best one.
#[test]
fn report_split_single() {
    let doc = delta_doc(&[12345]);
    let report = DeReport::new(&doc).unwrap();
    assert_eq!(report.overall.sample_count, 1);
    assert_eq!(report.best_90.sample_count, 1);
    assert_eq!(report.worst_10.sample_count, 0);
    assert_eq!(report.overall.stdev, 0);
}

// The fixed-point statistics agree with a floating-point library to
// within the last rendered decimal place.
#[test]
fn statistics_cross_check() {
    let raw: Vec<f64> = vec![1.0, 2.5, 3.25, 4.75, 8.125, 0.5];
    let scaled: Vec<i64> = raw.iter().map(|x| (x * 10000.0).round() as i64).collect();
    let doc = delta_doc(&scaled);
    let report = DeReport::new(&doc).unwrap();

    let mean = statistical::mean(&raw);
    let sd = statistical::standard_deviation(&raw, None);
    let got_mean = report.overall.mean as f64 / 10000.0;
    let got_sd = report.overall.stdev as f64 / 10000.0;
    assert!((mean - got_mean).abs() < 0.0002, "{} vs {}", mean, got_mean);
    assert!((sd - got_sd).abs() < 0.0002, "{} vs {}", sd, got_sd);
    assert_eq!(report.overall.min, 5000);
    assert_eq!(report.overall.max, 81250);
}

// The report's fixed textual layout, checked to the character.
#[test]
fn report_layout() {
    let doc = delta_doc(&[10000, 30000]);
    let report = DeReport::new(&doc).unwrap();
    let text = report.render();
    let expected = "Number of Samples: 2\nDE Formula: DE2000\n\nOVERALL - (2 colors)\n\tAverage DE: 2.0000\n\t    Max DE: 3.0000\n\t    Min DE: 1.0000\n\t StdDev DE: 1.4142\n\nBEST 90% - (1 colors)\n\tAverage DE: 1.0000\n\t    Max DE: 1.0000\n\t    Min DE: 1.0000\n\t StdDev DE: 0.0000\n\nWORST 10% - (1 colors)\n\tAverage DE: 3.0000\n\t    Max DE: 3.0000\n\t    Min DE: 3.0000\n\t StdDev DE: 0.0000\n\n";
    assert_eq!(text, expected);
}

// A document without a difference column has nothing to report.
#[test]
fn report_incomplete() {
    let doc = Cgats::parse(CGATS1).unwrap();
    assert!(matches!(
        DeReport::new(&doc),
        Err(cgats::error::Error::IncompleteData)
    ));
    assert!(matches!(
        DeList::from_cgats(&doc),
        Err(cgats::error::Error::IncompleteData)
    ));
}

// Every field survives the write-and-read round trip.
#[test]
fn field_round_trip() {
    for f in all_fields() {
        let shown = f.display();
        assert_eq!(Field::from_str(&shown).unwrap(), f, "{}", shown);
    }
}

// A few historical aliases resolve to the same fields.
#[test]
fn field_aliases() {
    assert_eq!(Field::from_str("de2000").unwrap(), Field::DE_2000);
    assert_eq!(Field::from_str("DE00").unwrap(), Field::DE_2000);
    assert_eq!(Field::from_str("LAB_DE_2001").unwrap(), Field::DE_2000);
    assert_eq!(Field::from_str("sampleid").unwrap(), Field::SAMPLE_ID);
    assert_eq!(Field::from_str("D_VISUAL").unwrap(), Field::D_VIS);
    assert_eq!(Field::from_str("").unwrap(), Field::BLANK);
    assert_eq!(Field::from_str("5CLR_3").unwrap(), Field::FIVECLR_3);
    assert!(Field::from_str("WAT_7").is_err());
}

// Numeric cells carry their reading; the canonical form trims and rounds.
#[test]
fn value_numeric_forms() {
    let v = CgatsValue::from_text("100");
    assert_eq!(v.number, Some(1000000));
    assert_eq!(v.render(), "100");
    let v = CgatsValue::from_text("13.84915");
    assert_eq!(v.number, Some(138492));
    assert_eq!(v.render(), "13.8492");
    let v = CgatsValue::from_text("-0.5");
    assert_eq!(v.number, Some(-5000));
    assert_eq!(v.render(), "-0.5");
    let v = CgatsValue::from_text(".5");
    assert_eq!(v.number, Some(5000));
    let v = CgatsValue::from_text("5.");
    assert_eq!(v.number, Some(50000));
    let v = CgatsValue::from_text("3cGray");
    assert_eq!(v.number, None);
    assert_eq!(v.render(), "3cGray");
    let v = CgatsValue::from_text("");
    assert_eq!(v.number, None);
    let v = CgatsValue::from_scaled(95000);
    assert_eq!(v.text, "9.5");
}

// Ported: a cell fetched by raw position.
#[test]
fn cgats_get_value() {
    let cgats = Cgats::parse(CGATS1).unwrap();
    let value = cgats.get_value(4, 1).unwrap();
    assert_eq!(value.text, "Blue");
}

// Ported: the metadata section writes back verbatim.
#[test]
fn write_meta() {
    let cgats = Cgats::parse(CGATS1).unwrap();
    assert_eq!(cgats.format_meta(), "CGATS.17\n");

    let colorburst = Cgats::parse(COLORBURST0).unwrap();
    assert_eq!(colorburst.format_meta(), "ColorBurst\n");
}

// Ported: the format-declaration block writes back canonically.
#[test]
fn write_fields() {
    let cgats = Cgats::parse(CGATS1).unwrap();
    assert_eq!(
        cgats.format_fields(),
        "BEGIN_DATA_FORMAT\nSAMPLE_ID\tSAMPLE_NAME\tCMYK_C\tCMYK_M\tCMYK_Y\tCMYK_K\nEND_DATA_FORMAT\n"
    );

    let colorburst = Cgats::parse(COLORBURST0).unwrap();
    assert_eq!(colorburst.format_fields(), "");
}

// Ported: the data block writes back row by row.
#[test]
fn write_data_map() {
    let cgats = Cgats::parse(CGATS1).unwrap();
    println!("{}", cgats.format_data_map());
    assert!(cgats.format_data_map().starts_with("BEGIN_DATA\n"));
    assert!(cgats.format_data_map().ends_with("END_DATA\n"));
}

// Ported: after concatenation the highest identifier equals the count.
#[test]
fn reindex() {
    let cgv = CgatsVec {
        collection: vec![
            Cgats::parse(CGATS1).unwrap(),
            Cgats::parse(CGATS1).unwrap(),
            Cgats::parse(CGATS1).unwrap(),
            Cgats::parse(CGATS1).unwrap(),
        ],
    };
    let cat = cgv.concatenate().unwrap();
    println!("{}", cat.format());

    let id_col = cat.field_index(&Field::SAMPLE_ID).unwrap();
    let max_id = (0..cat.sample_count())
        .map(|k| cat.get_value(k, id_col).unwrap().number.unwrap())
        .max()
        .unwrap();
    assert_eq!(cat.sample_count() as i64 * 10000, max_id);
}

// Ported: two tag-less ColorBurst files concatenate on their implicit
// layout.
#[test]
fn cat_cb() {
    let cgv = CgatsVec {
        collection: vec![
            Cgats::parse(COLORBURST0).unwrap(),
            Cgats::parse(COLORBURST1).unwrap(),
        ],
    };
    let cat = cgv.concatenate().unwrap();
    println!("{}", cat.format());
    assert_eq!(cat.sample_count(), 4);
}

// Ported: every well-formed fixture parses; every broken one is refused.
#[test]
fn good_files() {
    for content in [CGATS1, COLORBURST0, COLORBURST1].iter() {
        assert!(Cgats::parse(content).is_ok());
    }
}

#[test]
fn bad_files() {
    let bad = [
        "",
        "derp\nnothing to see here\n",
        "CGATS.17\nBEGIN_DATA_FORMAT\nSAMPLE_ID\tCMYK_C\nEND_DATA_FORMAT\nBEGIN_DATA\n1\nEND_DATA\n",
    ];
    for content in bad.iter() {
        assert!(Cgats::parse(content).is_err());
    }
}

fn all_fields() -> Vec<Field> {
    vec![
        Field::SAMPLE_ID,
        Field::SAMPLE_NAME,
        Field::BLANK,
        Field::RGB_R,
        Field::RGB_G,
        Field::RGB_B,
        Field::CMYK_C,
        Field::CMYK_M,
        Field::CMYK_Y,
        Field::CMYK_K,
        Field::FIVECLR_1,
        Field::FIVECLR_2,
        Field::FIVECLR_3,
        Field::FIVECLR_4,
        Field::FIVECLR_5,
        Field::SIXCLR_1,
        Field::SIXCLR_2,
        Field::SIXCLR_3,
        Field::SIXCLR_4,
        Field::SIXCLR_5,
        Field::SIXCLR_6,
        Field::SEVENCLR_1,
        Field::SEVENCLR_2,
        Field::SEVENCLR_3,
        Field::SEVENCLR_4,
        Field::SEVENCLR_5,
        Field::SEVENCLR_6,
        Field::SEVENCLR_7,
        Field::EIGHTCLR_1,
        Field::EIGHTCLR_2,
        Field::EIGHTCLR_3,
        Field::EIGHTCLR_4,
        Field::EIGHTCLR_5,
        Field::EIGHTCLR_6,
        Field::EIGHTCLR_7,
        Field::EIGHTCLR_8,
        Field::D_RED,
        Field::D_GREEN,
        Field::D_BLUE,
        Field::D_VIS,
        Field::LAB_L,
        Field::LAB_A,
        Field::LAB_B,
        Field::LAB_C,
        Field::LAB_H,
        Field::DE_1976,
        Field::DE_1994,
        Field::DE_1994T,
        Field::DE_CMC,
        Field::DE_CMC2,
        Field::DE_2000,
        Field::XYZ_X,
        Field::XYZ_Y,
        Field::XYZ_Z,
        Field::XYY_X,
        Field::XYY_Y,
        Field::XYY_CAPY,
        Field::SPECTRAL_340,
        Field::SPECTRAL_350,
        Field::SPECTRAL_360,
        Field::SPECTRAL_370,
        Field::SPECTRAL_380,
        Field::SPECTRAL_390,
        Field::SPECTRAL_400,
        Field::SPECTRAL_410,
        Field::SPECTRAL_420,
        Field::SPECTRAL_430,
        Field::SPECTRAL_440,
        Field::SPECTRAL_450,
        Field::SPECTRAL_460,
        Field::SPECTRAL_470,
        Field::SPECTRAL_480,
        Field::SPECTRAL_490,
        Field::SPECTRAL_500,
        Field::SPECTRAL_510,
        Field::SPECTRAL_520,
        Field::SPECTRAL_530,
        Field::SPECTRAL_540,
        Field::SPECTRAL_550,
        Field::SPECTRAL_560,
        Field::SPECTRAL_570,
        Field::SPECTRAL_580,
        Field::SPECTRAL_590,
        Field::SPECTRAL_600,
        Field::SPECTRAL_610,
        Field::SPECTRAL_620,
        Field::SPECTRAL_630,
        Field::SPECTRAL_640,
        Field::SPECTRAL_650,
        Field::SPECTRAL_660,
        Field::SPECTRAL_670,
        Field::SPECTRAL_680,
        Field::SPECTRAL_690,
        Field::SPECTRAL_700,
        Field::SPECTRAL_710,
        Field::SPECTRAL_720,
        Field::SPECTRAL_730,
        Field::SPECTRAL_740,
        Field::SPECTRAL_750,
        Field::SPECTRAL_760,
        Field::SPECTRAL_770,
        Field::SPECTRAL_780,
        Field::SPECTRAL_790,
        Field::SPECTRAL_800,
        Field::SPECTRAL_810,
        Field::SPECTRAL_820,
        Field::SPECTRAL_830,
    ]
}
