use grb_param::native::{Category, NativeFn};

#[test]
fn each_category_has_its_own_pair() {
    assert_eq!(Category::Int.read_fn(), NativeFn::GetIntParam);
    assert_eq!(Category::Int.write_fn(), NativeFn::SetIntParam);
    assert_eq!(Category::Double.read_fn(), NativeFn::GetDblParam);
    assert_eq!(Category::Double.write_fn(), NativeFn::SetDblParam);
    assert_eq!(Category::Str.read_fn(), NativeFn::GetStrParam);
    assert_eq!(Category::Str.write_fn(), NativeFn::SetStrParam);
}

#[test]
fn each_function_serves_one_category() {
    assert_eq!(NativeFn::GetIntParam.category(), Category::Int);
    assert_eq!(NativeFn::SetIntParam.category(), Category::Int);
    assert_eq!(NativeFn::GetDblParam.category(), Category::Double);
    assert_eq!(NativeFn::SetDblParam.category(), Category::Double);
    assert_eq!(NativeFn::GetStrParam.category(), Category::Str);
    assert_eq!(NativeFn::SetStrParam.category(), Category::Str);
}

#[test]
fn read_functions_are_told_from_write_functions() {
    assert!(NativeFn::GetIntParam.is_read());
    assert!(NativeFn::GetDblParam.is_read());
    assert!(NativeFn::GetStrParam.is_read());
    assert!(!NativeFn::SetIntParam.is_read());
    assert!(!NativeFn::SetDblParam.is_read());
    assert!(!NativeFn::SetStrParam.is_read());
}

#[test]
fn dispatch_goes_there_and_back() {
    for c in [Category::Int, Category::Double, Category::Str] {
        assert_eq!(c.read_fn().category(), c);
        assert_eq!(c.write_fn().category(), c);
        assert!(c.read_fn().is_read());
        assert!(!c.write_fn().is_read());
        assert_ne!(c.read_fn(), c.write_fn());
    }
}
