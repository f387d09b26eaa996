use cgats::cgats::Cgats;
use cgats::compare::CgatsVec;
use cgats::error::Error;
use cgats::field::{DeMethod, Field};

const CMYK_A: &str = "CGATS.17\nBEGIN_DATA_FORMAT\nSAMPLE_ID\tSAMPLE_NAME\tCMYK_C\tCMYK_M\tCMYK_Y\tCMYK_K\nEND_DATA_FORMAT\nBEGIN_DATA\n1\tCyan\t100\t0\t0\t0\n2\tMagenta\t0\t100\t0\t0\n3\tYellow\t0\t0\t100\t0\n4\tBlack\t0\t0\t0\t100\n5\tBlue\t100\t100\t0\t0\n6\tRed\t0\t100\t100\t0\n7\tGreen\t100\t0\t100\t0\n8\t3cBlack\t100\t100\t100\t0\n9\t4cBlack\t100\t100\t100\t100\n10\t3cGray\t50\t40\t40\t0\n11\t1cGray\t0\t0\t0\t50\nEND_DATA\n";

const CMYK_B: &str = "CGATS.17\nBEGIN_DATA_FORMAT\nSAMPLE_ID\tSAMPLE_NAME\tCMYK_C\tCMYK_M\tCMYK_Y\tCMYK_K\nEND_DATA_FORMAT\nBEGIN_DATA\n1\tCyan\t90\t0\t0\t0\n2\tMagenta\t0\t90\t0\t0\n3\tYellow\t0\t0\t90\t0\n4\tBlack\t0\t0\t0\t90\n5\tBlue\t90\t90\t0\t0\n6\tRed\t0\t90\t90\t0\n7\tGreen\t90\t0\t90\t0\n8\t3cBlack\t90\t90\t90\t0\n9\t4cBlack\t90\t90\t90\t90\n10\t3cGray\t40\t30\t30\t0\n11\t1cGray\t0\t0\t0\t40\nEND_DATA\n";

const LAB_A: &str = "CGATS.17\nBEGIN_DATA_FORMAT\nSAMPLE_ID\tLAB_L\tLAB_A\tLAB_B\nEND_DATA_FORMAT\nBEGIN_DATA\n1\t50\t10\t-10\n2\t75.25\t-3.5\t4.25\n3\t25\t0\t0\nEND_DATA\n";

const LAB_B: &str = "CGATS.17\nBEGIN_DATA_FORMAT\nSAMPLE_ID\tLAB_L\tLAB_A\tLAB_B\nEND_DATA_FORMAT\nBEGIN_DATA\n1\t51\t9\t-11\n2\t74.25\t-2.5\t5.25\n3\t26\t1\t1\nEND_DATA\n";

// Averaging a single document returns it unchanged.
#[test]
fn average_identity() {
    let doc = Cgats::parse(CMYK_A).unwrap();
    let avg = Cgats::average(vec![Cgats::parse(CMYK_A).unwrap()]).unwrap();
    assert_eq!(doc.format(), avg.format());
    assert_eq!(doc.fields, avg.fields);
    assert_eq!(doc.sample_count(), avg.sample_count());
}

// Averaging two same-shaped files: every numeric cell is the mean of the
// two inputs, and the names come from the first file.
#[test]
fn average_cmyk_pair() {
    let a = Cgats::parse(CMYK_A).unwrap();
    let b = Cgats::parse(CMYK_B).unwrap();
    let avg = Cgats::average(vec![
        Cgats::parse(CMYK_A).unwrap(),
        Cgats::parse(CMYK_B).unwrap(),
    ])
    .unwrap();

    assert_eq!(avg.sample_count(), 11);
    assert_eq!(avg.fields, a.fields);
    let name_col = avg.field_index(&Field::SAMPLE_NAME).unwrap();
    for k in 0..11 {
        for j in 0..6 {
            let av = avg.get_value(k, j).unwrap();
            let x = a.get_value(k, j).unwrap();
            let y = b.get_value(k, j).unwrap();
            match (x.number, y.number) {
                (Some(nx), Some(ny)) => {
                    assert_eq!(av.number, Some((nx + ny) / 2 + (nx + ny) % 2));
                }
                _ => {
                    if j == name_col {
                        assert_eq!(av.text, x.text);
                    }
                }
            }
        }
    }
    // one exact spot check: Cyan row, first ink: the mean of 100 and 90
    let c_col = avg.field_index(&Field::CMYK_C).unwrap();
    assert_eq!(avg.get_value(0, c_col).unwrap().text, "95");
    // the annotation lands on the first metadata line
    assert!(avg.format_meta().contains("Average of 2"));
}

// Concatenating two eleven-row files gives twenty-two rows with
// SAMPLE_ID running exactly one through twenty-two.
#[test]
fn concatenate_pair() {
    let cat = Cgats::concatenate(vec![
        Cgats::parse(CMYK_A).unwrap(),
        Cgats::parse(CMYK_B).unwrap(),
    ])
    .unwrap();

    assert_eq!(cat.sample_count(), 22);
    let id_col = cat.field_index(&Field::SAMPLE_ID).unwrap();
    for k in 0..22 {
        let id = cat.get_value(k, id_col).unwrap();
        assert_eq!(id.text, format!("{}", k + 1));
    }
}

// Documents of differing layout cannot be joined.
#[test]
fn concatenate_mismatch() {
    let r = Cgats::concatenate(vec![
        Cgats::parse(CMYK_A).unwrap(),
        Cgats::parse(LAB_A).unwrap(),
    ]);
    assert_eq!(r.unwrap_err(), Error::CannotCompare);
    let none: Vec<Cgats> = vec![];
    assert_eq!(Cgats::concatenate(none).unwrap_err(), Error::NoData);
}

// Averaging documents that agree in neither count nor layout is refused.
#[test]
fn average_mismatch() {
    let short = "CGATS.17\nBEGIN_DATA_FORMAT\nSAMPLE_ID\tLAB_L\tLAB_A\tLAB_B\nEND_DATA_FORMAT\nBEGIN_DATA\n1\t50\t10\t-10\nEND_DATA\n";
    let r = Cgats::average(vec![
        Cgats::parse(CMYK_A).unwrap(),
        Cgats::parse(short).unwrap(),
    ]);
    assert_eq!(r.unwrap_err(), Error::CannotCompare);
    let none: Vec<Cgats> = vec![];
    assert_eq!(Cgats::average(none).unwrap_err(), Error::NoData);
}

fn scaled_deltas(a: &Cgats, b: &Cgats, method: deltae::DEMethod) -> Vec<i64> {
    let labs0 = a.to_lab_vec().unwrap();
    let labs1 = b.to_lab_vec().unwrap();
    labs0
        .iter()
        .zip(labs1.iter())
        .map(|(x, y)| {
            let l0 = deltae::LabValue {
                l: x[0] as f32 / 10000.0,
                a: x[1] as f32 / 10000.0,
                b: x[2] as f32 / 10000.0,
            };
            let l1 = deltae::LabValue {
                l: y[0] as f32 / 10000.0,
                a: y[1] as f32 / 10000.0,
                b: y[2] as f32 / 10000.0,
            };
            let de = deltae::DeltaE::new(&l0, &l1, method);
            (*de.value() * 10000.0).round() as i64
        })
        .collect()
}

// A document compared against itself differs nowhere: every delta is 0.
#[test]
fn deltae_identical_is_zero() {
    let a = Cgats::parse(LAB_A).unwrap();
    let b = Cgats::parse(LAB_A).unwrap();
    let deltas = scaled_deltas(&a, &b, deltae::DEMethod::DE2000);
    for d in &deltas {
        assert_eq!(*d, 0);
    }
    let pair = CgatsVec {
        collection: vec![a, b],
    };
    let result = pair.deltae(DeMethod::De2000, &deltas).unwrap();
    assert_eq!(result.sample_count(), 3);
    assert_eq!(result.fields, vec![Field::SAMPLE_ID, Field::DE_2000]);
    for k in 0..3 {
        assert_eq!(result.get_value(k, 1).unwrap().text, "0");
    }
}

// The color-difference run demands exactly two comparable documents.
#[test]
fn deltae_requirements() {
    let a = Cgats::parse(LAB_A).unwrap();
    let single = CgatsVec {
        collection: vec![a],
    };
    assert_eq!(
        single.deltae(DeMethod::De2000, &vec![]).unwrap_err(),
        Error::CannotCompare
    );

    let unequal = CgatsVec {
        collection: vec![
            Cgats::parse(LAB_A).unwrap(),
            Cgats::parse(
                "CGATS.17\nBEGIN_DATA_FORMAT\nSAMPLE_ID\tLAB_L\tLAB_A\tLAB_B\nEND_DATA_FORMAT\nBEGIN_DATA\n1\t50\t10\t-10\nEND_DATA\n",
            )
            .unwrap(),
        ],
    };
    assert_eq!(
        unequal.deltae(DeMethod::De2000, &vec![]).unwrap_err(),
        Error::CannotCompare
    );

    let no_lab = CgatsVec {
        collection: vec![Cgats::parse(CMYK_A).unwrap(), Cgats::parse(CMYK_B).unwrap()],
    };
    assert_eq!(
        no_lab.deltae(DeMethod::De2000, &vec![]).unwrap_err(),
        Error::CannotCompare
    );
}

// A full color-difference run against the outside formula: two real
// documents, their deltas, and the assembled result document.
#[test]
fn compare_deltae() {
    let a = Cgats::parse(LAB_A).unwrap();
    let b = Cgats::parse(LAB_B).unwrap();
    let deltas = scaled_deltas(&a, &b, deltae::DEMethod::DE1976);
    // DE1976 of row 0: sqrt(1 + 1 + 1) ~ 1.7321
    assert_eq!(deltas[0], 17321);
    let pair = CgatsVec {
        collection: vec![a, b],
    };
    let result = pair.deltae(DeMethod::De1976, &deltas).unwrap();
    assert_eq!(result.get_value(0, 1).unwrap().text, "1.7321");
    assert!(result.format_meta().contains("NUMBER_OF_SETS\t3"));
}

// Renumbering gives a document a one-based identifier column.
#[test]
fn compare_reindex() {
    let mut doc = Cgats::parse(
        "ColorBurst\nBEGIN_DATA\n0.05\t0.04\t0.03\t0.04\t96.5\t0.1\t-0.2\n1.15\t0.9\t0.8\t0.95\t35.2\t1.3\t-4.7\nEND_DATA\n",
    )
    .unwrap();
    assert!(doc.field_index(&Field::SAMPLE_ID).is_none());
    doc.insert_sample_id();
    assert_eq!(doc.fields[0], Field::SAMPLE_ID);
    assert_eq!(doc.get_value(0, 0).unwrap().text, "1");
    assert_eq!(doc.get_value(1, 0).unwrap().text, "2");
    assert!(doc.format_meta().starts_with("CGATS.17\n"));
}
