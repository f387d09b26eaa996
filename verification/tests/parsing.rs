// The original suite read these fixtures from disk; the library now parses
// text it is handed, so the same fixtures live here as constants.
use cgats::cgats::Cgats;
use cgats::data_vec::DataVec;
use cgats::error::Error;
use cgats::field::Field;
use cgats::vendor::Vendor;

const CGATS0: &str = "CGATS.17\nORIGINATOR\t\"cgats tests\"\nNUMBER_OF_SETS\t3\nBEGIN_DATA_FORMAT\nSAMPLE_ID\tSAMPLE_NAME\tCMYK_C\tCMYK_M\tCMYK_Y\tCMYK_K\nEND_DATA_FORMAT\nBEGIN_DATA\n1\tCyan\t100\t0\t0\t0\n2\tMagenta\t0\t100\t0\t0\n3\tYellow\t0\t0\t100\t0\nEND_DATA\n";

const CGATS1: &str = "CGATS.17\nBEGIN_DATA_FORMAT\nSAMPLE_ID\tSAMPLE_NAME\tCMYK_C\tCMYK_M\tCMYK_Y\tCMYK_K\nEND_DATA_FORMAT\nBEGIN_DATA\n1\tCyan\t100\t0\t0\t0\n2\tMagenta\t0\t100\t0\t0\n3\tYellow\t0\t0\t100\t0\n4\tBlack\t0\t0\t0\t100\n5\tBlue\t100\t100\t0\t0\n6\tRed\t0\t100\t100\t0\n7\tGreen\t100\t0\t100\t0\n8\t3cBlack\t100\t100\t100\t0\n9\t4cBlack\t100\t100\t100\t100\n10\t3cGray\t50\t40\t40\t0\n11\t1cGray\t0\t0\t0\t50\nEND_DATA\n";

const CGATS2: &str = "CGATS.17\nBEGIN_DATA_FORMAT\nSAMPLE_ID\tSAMPLE_NAME\tCMYK_C\tCMYK_M\tCMYK_Y\tCMYK_K\nEND_DATA_FORMAT\nBEGIN_DATA\n1\tCyan\t90\t0\t0\t0\n2\tMagenta\t0\t90\t0\t0\n3\tYellow\t0\t0\t90\t0\n4\tBlack\t0\t0\t0\t90\n5\tBlue\t90\t90\t0\t0\n6\tRed\t0\t90\t90\t0\n7\tGreen\t90\t0\t90\t0\n8\t3cBlack\t90\t90\t90\t0\n9\t4cBlack\t90\t90\t90\t90\n10\t3cGray\t40\t30\t30\t0\n11\t1cGray\t0\t0\t0\t40\nEND_DATA\n";

const CGATS3: &str = "CGATS.17\nBEGIN_DATA_FORMAT\nSAMPLE_ID\tSAMPLE_NAME\tCMYK_C\tCMYK_M\tCMYK_Y\tCMYK_K\nEND_DATA_FORMAT\nBEGIN_DATA\n1\tCyan\t80\t0\t0\t0\n2\tMagenta\t0\t80\t0\t0\nEND_DATA\n";

const CGATS_FORMAT: &str = "CGATS.17\nBEGIN_DATA_FORMAT\nSAMPLE_ID\tSAMPLE_NAME\tCMYK_C\tCMYK_M\tCMYK_Y\tCMYK_K\nEND_DATA_FORMAT\nBEGIN_DATA\n1\tCyan\t100\t0\t0\nEND_DATA\n";

const COLORBURST0: &str = "ColorBurst\nBEGIN_DATA\n0.05\t0.04\t0.03\t0.04\t96.5\t0.1\t-0.2\n1.15\t0.9\t0.8\t0.95\t35.2\t1.3\t-4.7\nEND_DATA\n";

const CURVE0: &str = "File Created by Curve3\nBEGIN_DATA_FORMAT\nSAMPLE_ID\tSAMPLE_NAME\tCMYK_C\tCMYK_M\tCMYK_Y\tCMYK_K\nEND_DATA_FORMAT\nBEGIN_DATA\n1\tA1\t0\t0\t0\t0\n2\tA2\t25\t0\t0\t0\n3\tA3\t50\t0\t0\t0\n4\tA4\t75\t0\t0\t0\n5\tA5\t100\t0\t0\t0\nEND_DATA\n";

const EMPTY: &str = "";

const OTHER: &str = "derp\nnothing to see here\n";

// Ported: reads a whole text into records and shows them.
#[test]
fn from_file() {
    let raw = DataVec::from_text(CURVE0).unwrap();
    println!("{:?}", raw);
    assert!(raw.lines.len() > 0);
}

// Ported: the field registry parses a token and writes it back.
#[test]
fn data_format() {
    let cgv = DataVec::from_text(CGATS0).unwrap();
    println!("{:?}", cgv);

    let df = Field::from_str("CMYK_C").unwrap();
    assert_eq!(df.display(), "CMYK_C");
}

// Ported: the declared layout of a six-column file.
#[test]
fn test_extract_data_format() {
    let raw = DataVec::from_text(CGATS1).unwrap();
    let format = raw.extract_data_format().unwrap();
    println!("{:?}", format);

    let format_vec = vec![
        Field::SAMPLE_ID,
        Field::SAMPLE_NAME,
        Field::CMYK_C,
        Field::CMYK_M,
        Field::CMYK_Y,
        Field::CMYK_K,
    ];

    assert_eq!(format_vec, format);
}

// Ported: the data body of the eleven-sample file, cell by cell.
#[test]
fn test_extract_data() {
    let raw = DataVec::from_text(CGATS1).unwrap();
    let data = raw.extract_data().unwrap();
    println!("{:?}", data);

    let data_vec = vec![
        vec!["1", "Cyan", "100", "0", "0", "0"],
        vec!["2", "Magenta", "0", "100", "0", "0"],
        vec!["3", "Yellow", "0", "0", "100", "0"],
        vec!["4", "Black", "0", "0", "0", "100"],
        vec!["5", "Blue", "100", "100", "0", "0"],
        vec!["6", "Red", "0", "100", "100", "0"],
        vec!["7", "Green", "100", "0", "100", "0"],
        vec!["8", "3cBlack", "100", "100", "100", "0"],
        vec!["9", "4cBlack", "100", "100", "100", "100"],
        vec!["10", "3cGray", "50", "40", "40", "0"],
        vec!["11", "1cGray", "0", "0", "0", "50"],
    ];

    assert_eq!(data_vec.len(), data.lines.len());
    for (expected, line) in data_vec.iter().zip(data.lines.iter()) {
        assert_eq!(expected.len(), line.raw_samples.len());
        for (e, c) in expected.iter().zip(line.raw_samples.iter()) {
            assert_eq!(e, c);
        }
    }
}

// Ported: every data record is as wide as the declared layout.
#[test]
fn test_extract_data_and_format() {
    let raw = DataVec::from_text(CGATS0).unwrap();
    let format = raw.extract_data_format().unwrap();
    let data = raw.extract_data().unwrap();
    println!(
        "FORMAT [{}]:\n{:?}\n\nDATA [{}]:\n{:?}",
        format.len(),
        format,
        data.lines.len(),
        data
    );

    for line in &data.lines {
        assert_eq!(line.raw_samples.len(), format.len());
    }
}

// Ported: the vendor is detected from the first record of each file.
#[test]
fn cgats_type() {
    let files = [
        ("cgats_format", CGATS_FORMAT),
        ("cgats0", CGATS0),
        ("cgats1", CGATS1),
        ("cgats2", CGATS2),
        ("cgats3", CGATS3),
        ("colorburst0", COLORBURST0),
        ("curve0", CURVE0),
        ("empty", EMPTY),
        ("other", OTHER),
    ];

    for (name, content) in files.iter() {
        match Cgats::parse(content) {
            Ok(object) => {
                println!("{}: {:?}", name, object.vendor);
                assert!(object.vendor.is_some());
            }
            Err(e) => println!("{}: {:?}", name, e),
        }
    }
}

// Ported: a parsed document prints back out.
#[test]
fn cgo_print() {
    let cgo = Cgats::parse(CGATS1).unwrap();
    println!("{}", cgo.format());
}

// Ported: everything outside the tagged sections is metadata.
#[test]
fn meta() {
    let raw = DataVec::from_text(CURVE0).unwrap();
    let meta = raw.extract_meta_data();
    assert!(meta.lines.len() > 0);
    println!("{:?}", meta);
}

// Ported: a cell is found by its sample index and its field's column.
#[test]
fn btreemap() {
    let cgo = Cgats::parse(CGATS1).unwrap();
    let col = cgo.field_index(&Field::SAMPLE_NAME).unwrap();
    let val = cgo.get_value(0, col).unwrap();
    println!("{}", val.text);
    assert_eq!(val.text, "Cyan");
}

// Ported: keyword detection over the vendor vocabulary.
#[test]
fn from_str() {
    assert_eq!(Vendor::from_str("ColorBurst").unwrap(), Vendor::ColorBurst);
    assert_eq!(Vendor::from_str("CGATS.17").unwrap(), Vendor::Cgats);
    assert_eq!(
        Vendor::from_str("File Created by Curve3").unwrap(),
        Vendor::Curve
    );
    assert_eq!(Vendor::from_str("CTI1").unwrap(), Vendor::Argyll);
    assert_eq!(
        Vendor::from_str("derp").unwrap(),
        Vendor::Other("derp".to_owned())
    );
    assert!(Vendor::from_str("").is_err());
}

// The failure taxonomy, one malformed input per parsing error.
#[test]
fn parse_errors() {
    assert_eq!(Cgats::parse(EMPTY).unwrap_err(), Error::EmptyFile);
    assert_eq!(Cgats::parse(OTHER).unwrap_err(), Error::NoDataFormat);
    assert_eq!(Cgats::parse(CGATS_FORMAT).unwrap_err(), Error::FormatDataMismatch);
    let unknown = "CGATS.17\nBEGIN_DATA_FORMAT\nSAMPLE_ID\tWAT_7\nEND_DATA_FORMAT\nBEGIN_DATA\n1\t2\nEND_DATA\n";
    assert_eq!(Cgats::parse(unknown).unwrap_err(), Error::UnknownFormatType);
    let nodata = "CGATS.17\nBEGIN_DATA_FORMAT\nSAMPLE_ID\nEND_DATA_FORMAT\nsome trailing line\n";
    assert_eq!(Cgats::parse(nodata).unwrap_err(), Error::NoData);
}

// Serialization writes back what parsing read: the round trip is stable.
#[test]
fn round_trip_documents() {
    for content in [CGATS0, CGATS1, CGATS2, CGATS3, COLORBURST0, CURVE0].iter() {
        let doc = Cgats::parse(content).unwrap();
        let text = doc.format();
        let doc2 = Cgats::parse(&text).unwrap();
        assert_eq!(doc.fields, doc2.fields);
        assert_eq!(doc.sample_count(), doc2.sample_count());
        assert_eq!(text, doc2.format());
    }
}

// The ColorBurst dialect's layout is implicit and never written out.
#[test]
fn colorburst_implicit_format() {
    let doc = Cgats::parse(COLORBURST0).unwrap();
    assert_eq!(doc.vendor, Some(Vendor::ColorBurst));
    assert_eq!(doc.fields, cgats::field::ColorBurstFormat());
    assert_eq!(doc.format_fields(), "");
    assert!(!doc.format().contains("BEGIN_DATA_FORMAT"));
}
