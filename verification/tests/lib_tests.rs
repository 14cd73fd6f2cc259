use framegraph::profiling;
use framegraph::util;

#[test]
fn it_works() {
    let result = util::add(2, 2);
    assert_eq!(result, 4);
}

#[test]
fn lib_it_works() {
    let result = profiling::add(2, 2);
    assert_eq!(result, 4);
}

#[test]
fn passes_it_works() {
    let result = 2 + 2;
    assert_eq!(result, 4);
}
