use pender::cities::{CityNames, CityTable};
use pender::ids::{generate_id, new_reset_code};
use pender::photos::{decode_photo, is_decodable_photo};
use pender::posts::{
    post_image_dir, post_image_file, post_images_bucket_uri, post_row, upload_response_body, UploadForm,
    ViewedPosts,
};
use pender::search::{build_search_queries, SearchFilters};

fn s(x: &str) -> String {
    x.to_string()
}

fn cities() -> CityTable {
    CityTable {
        languages: vec![
            CityNames {
                lang: s("GEO"),
                names: vec![(s("tbilisi"), s("თბილისი")), (s("batumi"), s("ბათუმი"))],
            },
            CityNames { lang: s("ENG"), names: vec![(s("tbilisi"), s("Tbilisi")), (s("quote"), s("A \"B\""))] },
        ],
    }
}

fn no_filters() -> SearchFilters {
    SearchFilters {
        animal: None,
        breed: None,
        age: None,
        age_type: None,
        city: None,
        price_min: None,
        price_max: None,
        post_type: None,
        sex: None,
        page: None,
    }
}

#[test]
fn city_lookup() {
    let t = cities();
    assert_eq!(t.display_name(&s("ENG"), &s("tbilisi")), Some(s("Tbilisi")));
    assert_eq!(t.display_name(&s("ENG"), &s("batumi")), None);
    assert_eq!(t.display_name(&s("RUS"), &s("tbilisi")), None);
    assert_eq!(t.city_column(&s("batumi")), "\"ბათუმი\"");
    assert_eq!(t.city_column(&s("kutaisi")), "null");
}

#[test]
fn json_quoting_escapes() {
    let t = CityTable {
        languages: vec![CityNames { lang: s("GEO"), names: vec![(s("q"), s("A \"B\""))] }],
    };
    assert_eq!(t.city_column(&s("q")), "\"A \\\"B\\\"\"");
}

#[test]
fn json_control_characters() {
    let t = CityTable {
        languages: vec![CityNames {
            lang: s("GEO"),
            names: vec![(s("c"), s("a\nb\u{1}\\\t/\u{7f}"))],
        }],
    };
    assert_eq!(t.city_column(&s("c")), "\"a\\nb\\u0001\\\\\\t/\u{7f}\"");
}

#[test]
fn search_without_filters() {
    let (q, c) = build_search_queries(&no_filters(), &cities());
    assert_eq!(q, "SELECT * FROM posts ORDER BY time_posted DESC LIMIT 1");
    assert_eq!(c, "SELECT COUNT(*) FROM posts");
}

#[test]
fn search_with_all_filters() {
    let f = SearchFilters {
        animal: Some(s("dog")),
        breed: Some(s("lab")),
        age: Some(s("3")),
        age_type: Some(s("years")),
        city: Some(s("tbilisi")),
        price_min: Some(10),
        price_max: Some(-5),
        post_type: Some(s("sale")),
        sex: Some(s("male")),
        page: Some(3),
    };
    let (q, c) = build_search_queries(&f, &cities());
    let conds = "animal = 'dog' AND breed ILIKE '%lab%' AND age <= '3' AND age_type = 'years' AND city = '\"თბილისი\"' AND price >= 10 AND price <= -5 AND post_type = 'sale' AND sex = 'male'";
    assert_eq!(q, format!("SELECT * FROM posts WHERE {} ORDER BY time_posted DESC LIMIT 1 OFFSET 2", conds));
    assert_eq!(c, format!("SELECT COUNT(*) FROM posts WHERE {}", conds));
}

#[test]
fn search_all_means_no_condition() {
    let mut f = no_filters();
    f.animal = Some(s("all"));
    f.age_type = Some(s("all"));
    f.age = Some(s("2"));
    f.city = Some(s("nowhere"));
    f.page = Some(1);
    let (q, c) = build_search_queries(&f, &cities());
    assert_eq!(q, "SELECT * FROM posts WHERE city = 'null' ORDER BY time_posted DESC LIMIT 1 OFFSET 0");
    assert_eq!(c, "SELECT COUNT(*) FROM posts WHERE city = 'null'");
}

#[test]
fn age_type_without_age() {
    let mut f = no_filters();
    f.age_type = Some(s("months"));
    let (q, _) = build_search_queries(&f, &cities());
    assert_eq!(q, "SELECT * FROM posts WHERE age_type = 'months' ORDER BY time_posted DESC LIMIT 1");
}

#[test]
fn post_ids_have_six_digits() {
    for _ in 0..50 {
        let id = generate_id();
        assert_eq!(id.len(), 6);
        assert!(id.chars().all(|c| c.is_ascii_digit()));
        let n: u32 = id.parse().unwrap();
        assert!((100000..1000000).contains(&n));
    }
}

#[test]
fn reset_codes_have_four_digits() {
    for _ in 0..50 {
        let code = new_reset_code();
        assert_eq!(code.len(), 4);
        let n: u32 = code.parse().unwrap();
        assert!((1000..9999).contains(&n));
    }
}

#[test]
fn stored_post_row() {
    let form = UploadForm {
        user_id: s("u1"),
        user_name: s("Nino"),
        photos: vec![s("a"), s("b"), s("c")],
        animal: s("cat"),
        breed: s("siamese"),
        post_type: s("adopt"),
        price: None,
        age_type: s("months"),
        age: s("4"),
        sex: s("female"),
        phone: s("555"),
        city: s("batumi"),
        description: s("cute"),
    };
    let row = post_row(&s("123456"), &form, &cities());
    assert_eq!(row.id, "123456");
    assert_eq!(row.user_name, "Nino");
    assert_eq!(row.city, "\"ბათუმი\"");
    assert_eq!(row.photos, "3");
    assert_eq!(row.price, None);
    assert_eq!(row.description, "cute");
}

#[test]
fn image_locations() {
    let id = s("123456");
    assert_eq!(post_image_dir(&id), "/var/uploads/post-images/123456");
    assert_eq!(post_image_file(&id, 2), "/var/uploads/post-images/123456/2.jpg");
    assert_eq!(post_images_bucket_uri(&id), "s3://pender-assets/post-images/123456");
    assert_eq!(upload_response_body(&id), "{\"post_id\":\"123456\"}");
}

#[test]
fn views_count_once_per_session() {
    let mut v = ViewedPosts::new();
    assert!(v.record(s("10")));
    assert!(v.record(s("11")));
    assert!(!v.record(s("10")));
    assert!(v.contains(&s("11")));
    assert!(!v.contains(&s("12")));
    let mut ids = v.to_ids();
    ids.sort();
    assert_eq!(ids, vec![s("10"), s("11")]);
    let w = ViewedPosts::from_ids(vec![s("1"), s("2"), s("1")]);
    assert_eq!(w.to_ids().len(), 2);
}

#[test]
fn photo_payloads() {
    let ok = s("data:image/png;base64,aGVsbG8=");
    assert!(is_decodable_photo(&ok));
    assert_eq!(decode_photo(&ok), Some(b"hello".to_vec()));
    let wrapped = s("data:image/png;base64,aGVs\r\nbG8h");
    assert_eq!(decode_photo(&wrapped), Some(b"hello!".to_vec()));
    assert_eq!(decode_photo(&s("aGVsbG8=")), None);
    assert_eq!(decode_photo(&s("data:,a")), None);
    assert_eq!(decode_photo(&s("data:,ab*c")), None);
    assert_eq!(decode_photo(&s("data:,ab=c")), None);
    assert_eq!(decode_photo(&s("data:,ab==\n")), Some(vec![0x69]));
    assert_eq!(decode_photo(&s("data:,")), Some(vec![]));
}
