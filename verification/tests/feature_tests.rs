use vector_feature::feature::Feature;
use vector_feature::feature::FeatureHandle;
use vector_feature::field::Field;
use vector_feature::field::FieldData;
use vector_feature::field::FieldValue;
use vector_feature::geometry::GeometryData;
use vector_feature::Layer;

fn lake_erie_fields() -> Vec<Field> {
    vec![
        Field {
            name: "name".to_string(),
            data: FieldData::Text("Lake Erie".to_string()),
        },
        Field {
            name: "area".to_string(),
            data: FieldData::Real(25744.0f64.to_bits()),
        },
    ]
}

fn lake_erie_geometry() -> GeometryData {
    GeometryData {
        wkt: "POLYGON ((0 0, 4 0, 4 4, 0 4, 0 0))".to_string(),
        json: "{ \"type\": \"Polygon\" }".to_string(),
    }
}

#[test]
fn absent_field_returns_none() {
    let layer = Layer { id: 1 };
    let f = Feature::with_layer(
        &layer,
        FeatureHandle { id: 10, released: false },
        lake_erie_fields(),
        lake_erie_geometry(),
    );
    assert!(f.field("missing").is_none());
}

#[test]
fn empty_schema_lookup_is_none() {
    let layer = Layer { id: 1 };
    let f = Feature::with_layer(
        &layer,
        FeatureHandle { id: 11, released: false },
        Vec::new(),
        lake_erie_geometry(),
    );
    assert!(f.field("name").is_none());
    assert!(f.field("").is_none());
}

#[test]
fn text_field_returns_exact_string() {
    let layer = Layer { id: 1 };
    let f = Feature::with_layer(
        &layer,
        FeatureHandle { id: 12, released: false },
        lake_erie_fields(),
        lake_erie_geometry(),
    );
    let v = f.field("name").unwrap();
    assert!(matches!(v, FieldValue::StringValue(_)));
    assert_eq!(v.as_string(), "Lake Erie");
}

#[test]
fn real_field_returns_bit_equal_double() {
    let layer = Layer { id: 1 };
    let f = Feature::with_layer(
        &layer,
        FeatureHandle { id: 13, released: false },
        lake_erie_fields(),
        lake_erie_geometry(),
    );
    let v = f.field("area").unwrap();
    assert!(matches!(v, FieldValue::RealValue(_)));
    let bits = v.as_real();
    assert_eq!(bits, 25744.0f64.to_bits());
    assert_eq!(f64::from_bits(bits), 25744.0f64);
}

#[test]
fn lake_erie_scenario() {
    let layer = Layer { id: 1 };
    let f = Feature::with_layer(
        &layer,
        FeatureHandle { id: 14, released: false },
        lake_erie_fields(),
        lake_erie_geometry(),
    );
    assert_eq!(f.field("name").unwrap().as_string(), "Lake Erie");
    assert_eq!(f64::from_bits(f.field("area").unwrap().as_real()), 25744.0);
    assert!(f.field("missing").is_none());
}

#[test]
fn first_matching_field_wins() {
    let layer = Layer { id: 1 };
    let fields = vec![
        Field {
            name: "name".to_string(),
            data: FieldData::Text("first".to_string()),
        },
        Field {
            name: "name".to_string(),
            data: FieldData::Text("second".to_string()),
        },
    ];
    let f = Feature::with_layer(
        &layer,
        FeatureHandle { id: 15, released: false },
        fields,
        lake_erie_geometry(),
    );
    assert_eq!(f.field("name").unwrap().as_string(), "first");
}

#[test]
fn empty_text_value_round_trips() {
    let layer = Layer { id: 1 };
    let fields = vec![Field {
        name: "note".to_string(),
        data: FieldData::Text(String::new()),
    }];
    let f = Feature::with_layer(
        &layer,
        FeatureHandle { id: 16, released: false },
        fields,
        lake_erie_geometry(),
    );
    assert_eq!(f.field("note").unwrap().as_string(), "");
}

#[test]
fn as_string_returns_payload() {
    let v = FieldValue::StringValue("shore".to_string());
    assert_eq!(v.as_string(), "shore");
}

#[test]
fn as_real_returns_payload() {
    let bits = (-12.5f64).to_bits();
    let v = FieldValue::RealValue(bits);
    assert_eq!(f64::from_bits(v.as_real()), -12.5);
}

#[test]
fn wkt_and_json_return_serializations_unchanged() {
    let layer = Layer { id: 2 };
    let mut f = Feature::with_layer(
        &layer,
        FeatureHandle { id: 20, released: false },
        lake_erie_fields(),
        lake_erie_geometry(),
    );
    assert_eq!(f.wkt(), "POLYGON ((0 0, 4 0, 4 4, 0 4, 0 0))");
    assert_eq!(f.json(), "{ \"type\": \"Polygon\" }");
}

#[test]
fn geometry_access_is_idempotent() {
    let layer = Layer { id: 2 };
    let mut f = Feature::with_layer(
        &layer,
        FeatureHandle { id: 21, released: false },
        lake_erie_fields(),
        lake_erie_geometry(),
    );
    let wkt_first = f.wkt();
    let wkt_second = f.wkt();
    assert_eq!(wkt_first, wkt_second);
    let json_first = f.json();
    let json_second = f.json();
    assert_eq!(json_first, json_second);
}

#[test]
fn geometry_wrapper_attaches_on_first_access() {
    let layer = Layer { id: 2 };
    let mut f = Feature::with_layer(
        &layer,
        FeatureHandle { id: 22, released: false },
        lake_erie_fields(),
        lake_erie_geometry(),
    );
    let g = f.geometry();
    assert!(g.has_data());
    assert_eq!(g.wkt(), "POLYGON ((0 0, 4 0, 4 4, 0 4, 0 0))");
    let g_again = f.geometry();
    assert!(g_again.has_data());
    assert_eq!(g_again.json(), "{ \"type\": \"Polygon\" }");
}

#[test]
fn feature_borrows_its_layer() {
    let layer = Layer { id: 9 };
    let f = Feature::with_layer(
        &layer,
        FeatureHandle { id: 40, released: false },
        lake_erie_fields(),
        lake_erie_geometry(),
    );
    assert_eq!(f.layer().id, 9);
}

#[test]
fn destroy_releases_handle() {
    let layer = Layer { id: 3 };
    let f = Feature::with_layer(
        &layer,
        FeatureHandle { id: 30, released: false },
        lake_erie_fields(),
        lake_erie_geometry(),
    );
    let h = f.destroy();
    assert_eq!(h.id, 30);
    assert!(h.released);
}

#[test]
fn destroying_many_features_releases_each_once() {
    let layer = Layer { id: 3 };
    let mut released_ids: Vec<u64> = Vec::new();
    for id in 0..10u64 {
        let f = Feature::with_layer(
            &layer,
            FeatureHandle { id, released: false },
            lake_erie_fields(),
            lake_erie_geometry(),
        );
        let h = f.destroy();
        assert!(h.released);
        released_ids.push(h.id);
    }
    let expected: Vec<u64> = (0..10).collect();
    assert_eq!(released_ids, expected);
}
