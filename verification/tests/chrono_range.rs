use chrono::{DateTime, Utc};

#[test]
fn chrono_range_bounds() {
    assert_eq!(DateTime::<Utc>::MIN_UTC.timestamp(), -8334601228800);
    assert_eq!(DateTime::<Utc>::MAX_UTC.timestamp(), 8210266876799);
    assert!(DateTime::from_timestamp(-8334601228800, 0).is_some());
    assert!(DateTime::from_timestamp(-8334601228801, 0).is_none());
    assert!(DateTime::from_timestamp(8210266876799, 0).is_some());
    assert!(DateTime::from_timestamp(8210266876800, 0).is_none());
}
