use v8::PropertyAttribute;
use v8::PropertyFilter;
use v8::PropertyHandlerFlags;

#[test]
fn property_attribute_test_attr() {
    assert!(PropertyAttribute::NONE().is_none());
    assert!(!PropertyAttribute::NONE().is_read_only());
    assert!(!PropertyAttribute::NONE().is_dont_enum());
    assert!(!PropertyAttribute::NONE().is_dont_delete());

    assert!(!PropertyAttribute::READ_ONLY().is_none());
    assert!(PropertyAttribute::READ_ONLY().is_read_only());
    assert!(!PropertyAttribute::READ_ONLY().is_dont_enum());
    assert!(!PropertyAttribute::READ_ONLY().is_dont_delete());

    assert!(!PropertyAttribute::DONT_ENUM().is_none());
    assert!(!PropertyAttribute::DONT_ENUM().is_read_only());
    assert!(PropertyAttribute::DONT_ENUM().is_dont_enum());
    assert!(!PropertyAttribute::DONT_ENUM().is_dont_delete());

    assert!(!PropertyAttribute::DONT_DELETE().is_none());
    assert!(!PropertyAttribute::DONT_DELETE().is_read_only());
    assert!(!PropertyAttribute::DONT_DELETE().is_dont_enum());
    assert!(PropertyAttribute::DONT_DELETE().is_dont_delete());

    assert_eq!(PropertyAttribute::NONE(), Default::default());
    assert_eq!(
        PropertyAttribute::READ_ONLY(),
        PropertyAttribute::NONE() | PropertyAttribute::READ_ONLY()
    );

    let attr = PropertyAttribute::READ_ONLY() | PropertyAttribute::DONT_ENUM();
    assert!(!attr.is_none());
    assert!(attr.is_read_only());
    assert!(attr.is_dont_enum());
    assert!(!attr.is_dont_delete());

    let attr = PropertyAttribute::READ_ONLY()
        | PropertyAttribute::READ_ONLY()
        | PropertyAttribute::DONT_ENUM();
    assert!(!attr.is_none());
    assert!(attr.is_read_only());
    assert!(attr.is_dont_enum());
    assert!(!attr.is_dont_delete());
}

#[test]
fn property_filter_test_attr() {
  assert!(PropertyFilter::ALL_PROPERTIES().is_all_properties());
  assert!(!PropertyFilter::ALL_PROPERTIES().is_only_writable());
  assert!(!PropertyFilter::ALL_PROPERTIES().is_only_enumerable());
  assert!(!PropertyFilter::ALL_PROPERTIES().is_only_configurable());
  assert!(!PropertyFilter::ALL_PROPERTIES().is_skip_strings());
  assert!(!PropertyFilter::ALL_PROPERTIES().is_skip_symbols());

  assert!(!PropertyFilter::ONLY_WRITABLE().is_all_properties());
  assert!(PropertyFilter::ONLY_WRITABLE().is_only_writable());
  assert!(!PropertyFilter::ONLY_WRITABLE().is_only_enumerable());
  assert!(!PropertyFilter::ONLY_WRITABLE().is_only_configurable());
  assert!(!PropertyFilter::ONLY_WRITABLE().is_skip_strings());
  assert!(!PropertyFilter::ONLY_WRITABLE().is_skip_symbols());

  assert!(!PropertyFilter::ONLY_ENUMERABLE().is_all_properties());
  assert!(!PropertyFilter::ONLY_ENUMERABLE().is_only_writable());
  assert!(PropertyFilter::ONLY_ENUMERABLE().is_only_enumerable());
  assert!(!PropertyFilter::ONLY_ENUMERABLE().is_only_configurable());
  assert!(!PropertyFilter::ONLY_ENUMERABLE().is_skip_strings());
  assert!(!PropertyFilter::ONLY_ENUMERABLE().is_skip_symbols());

  assert!(!PropertyFilter::ONLY_CONFIGURABLE().is_all_properties());
  assert!(!PropertyFilter::ONLY_CONFIGURABLE().is_only_writable());
  assert!(!PropertyFilter::ONLY_CONFIGURABLE().is_only_enumerable());
  assert!(PropertyFilter::ONLY_CONFIGURABLE().is_only_configurable());
  assert!(!PropertyFilter::ONLY_CONFIGURABLE().is_skip_strings());
  assert!(!PropertyFilter::ONLY_CONFIGURABLE().is_skip_symbols());

  assert!(!PropertyFilter::SKIP_STRINGS().is_all_properties());
  assert!(!PropertyFilter::SKIP_STRINGS().is_only_writable());
  assert!(!PropertyFilter::SKIP_STRINGS().is_only_enumerable());
  assert!(!PropertyFilter::SKIP_STRINGS().is_only_configurable());
  assert!(PropertyFilter::SKIP_STRINGS().is_skip_strings());
  assert!(!PropertyFilter::SKIP_STRINGS().is_skip_symbols());

  assert!(!PropertyFilter::SKIP_SYMBOLS().is_all_properties());
  assert!(!PropertyFilter::SKIP_SYMBOLS().is_only_writable());
  assert!(!PropertyFilter::SKIP_SYMBOLS().is_only_enumerable());
  assert!(!PropertyFilter::SKIP_SYMBOLS().is_only_configurable());
  assert!(!PropertyFilter::SKIP_SYMBOLS().is_skip_strings());
  assert!(PropertyFilter::SKIP_SYMBOLS().is_skip_symbols());

  assert_eq!(PropertyFilter::ALL_PROPERTIES(), Default::default());
  assert_eq!(
    PropertyFilter::ONLY_WRITABLE(),
    PropertyFilter::ALL_PROPERTIES() | PropertyFilter::ONLY_WRITABLE()
  );

  let attr = PropertyFilter::ONLY_WRITABLE()
    | PropertyFilter::ONLY_WRITABLE()
    | PropertyFilter::SKIP_STRINGS();
  assert!(!attr.is_all_properties());
  assert!(attr.is_only_writable());
  assert!(!attr.is_only_enumerable());
  assert!(!attr.is_only_configurable());
  assert!(attr.is_skip_strings());
  assert!(!attr.is_skip_symbols());
}

#[test]
fn property_handler_flags_test_attr() {
  assert!(PropertyHandlerFlags::NONE().is_none());
  assert!(!PropertyHandlerFlags::NONE().is_all_can_read());
  assert!(!PropertyHandlerFlags::NONE().is_non_masking());
  assert!(!PropertyHandlerFlags::NONE().is_only_intercept_strings());
  assert!(!PropertyHandlerFlags::NONE().is_has_no_side_effect());

  assert!(!PropertyHandlerFlags::ALL_CAN_READ().is_none());
  assert!(PropertyHandlerFlags::ALL_CAN_READ().is_all_can_read());
  assert!(!PropertyHandlerFlags::ALL_CAN_READ().is_non_masking());
  assert!(!PropertyHandlerFlags::ALL_CAN_READ().is_only_intercept_strings());
  assert!(!PropertyHandlerFlags::ALL_CAN_READ().is_has_no_side_effect());

  assert!(!PropertyHandlerFlags::NON_MASKING().is_none());
  assert!(!PropertyHandlerFlags::NON_MASKING().is_all_can_read());
  assert!(PropertyHandlerFlags::NON_MASKING().is_non_masking());
  assert!(!PropertyHandlerFlags::NON_MASKING().is_only_intercept_strings());
  assert!(!PropertyHandlerFlags::NON_MASKING().is_has_no_side_effect());

  assert!(!PropertyHandlerFlags::ONLY_INTERCEPT_STRINGS().is_none());
  assert!(!PropertyHandlerFlags::ONLY_INTERCEPT_STRINGS().is_all_can_read());
  assert!(!PropertyHandlerFlags::ONLY_INTERCEPT_STRINGS().is_non_masking());
  assert!(
    PropertyHandlerFlags::ONLY_INTERCEPT_STRINGS().is_only_intercept_strings()
  );
  assert!(!PropertyHandlerFlags::ONLY_INTERCEPT_STRINGS().is_has_no_side_effect());

  assert!(!PropertyHandlerFlags::HAS_NO_SIDE_EFFECT().is_none());
  assert!(!PropertyHandlerFlags::HAS_NO_SIDE_EFFECT().is_all_can_read());
  assert!(!PropertyHandlerFlags::HAS_NO_SIDE_EFFECT().is_non_masking());
  assert!(!PropertyHandlerFlags::HAS_NO_SIDE_EFFECT().is_only_intercept_strings());
  assert!(PropertyHandlerFlags::HAS_NO_SIDE_EFFECT().is_has_no_side_effect());

  assert_eq!(PropertyHandlerFlags::NONE(), Default::default());
  assert_eq!(
    PropertyHandlerFlags::ALL_CAN_READ(),
    PropertyHandlerFlags::NONE() | PropertyHandlerFlags::ALL_CAN_READ()
  );

  let attr =
    PropertyHandlerFlags::ALL_CAN_READ() | PropertyHandlerFlags::NON_MASKING();
  assert!(!attr.is_none());
  assert!(attr.is_all_can_read());
  assert!(attr.is_non_masking());
  assert!(!attr.is_only_intercept_strings());
  assert!(!attr.is_has_no_side_effect());

  let attr = PropertyHandlerFlags::ONLY_INTERCEPT_STRINGS()
    | PropertyHandlerFlags::HAS_NO_SIDE_EFFECT()
    | PropertyHandlerFlags::NON_MASKING();
  assert!(!attr.is_none());
  assert!(!attr.is_all_can_read());
  assert!(attr.is_non_masking());
  assert!(attr.is_only_intercept_strings());
  assert!(attr.is_has_no_side_effect());
}

#[test]
fn union_laws_on_values() {
    // A flag is in a union exactly when it is in one side.
    let a = PropertyFilter::ONLY_WRITABLE() | PropertyFilter::SKIP_SYMBOLS();
    let b = PropertyFilter::SKIP_STRINGS();
    let u = a | b;
    assert!(u.is_only_writable() && u.is_skip_symbols() && u.is_skip_strings());
    assert!(!u.is_only_enumerable() && !u.is_only_configurable());
    // Union is commutative, idempotent, and the empty set is its identity.
    let x = PropertyHandlerFlags::NON_MASKING() | PropertyHandlerFlags::ALL_CAN_READ();
    let y = PropertyHandlerFlags::ALL_CAN_READ() | PropertyHandlerFlags::NON_MASKING();
    assert_eq!(x, y);
    assert_eq!(
        PropertyHandlerFlags::NON_MASKING() | PropertyHandlerFlags::NON_MASKING(),
        PropertyHandlerFlags::NON_MASKING()
    );
    assert_eq!(
        PropertyAttribute::default() | PropertyAttribute::DONT_DELETE(),
        PropertyAttribute::DONT_DELETE()
    );
    // The union of two empty sets is empty; any non-empty side makes it
    // non-empty.
    assert!((PropertyAttribute::NONE() | PropertyAttribute::NONE()).is_none());
    assert!(!(PropertyAttribute::NONE() | PropertyAttribute::DONT_ENUM()).is_none());
    assert_eq!(PropertyFilter::default(), PropertyFilter::ALL_PROPERTIES());
    assert_eq!(PropertyHandlerFlags::default(), PropertyHandlerFlags::NONE());
}
