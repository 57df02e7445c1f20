use mathfont::kerning::kern_lookup;
use mathfont::kerning::KernTable;

#[test]
fn kern_step_function() {
    let table = KernTable { heights: vec![10, 20], kerns: vec![5, 8, 12] };
    assert_eq!(kern_lookup(&table, 5), 5);
    assert_eq!(kern_lookup(&table, 15), 8);
    assert_eq!(kern_lookup(&table, 25), 12);
}

#[test]
fn kern_at_exact_heights() {
    // a query equal to an entry's height belongs to the next band
    let table = KernTable { heights: vec![10, 20], kerns: vec![5, 8, 12] };
    assert_eq!(kern_lookup(&table, 9), 5);
    assert_eq!(kern_lookup(&table, 10), 8);
    assert_eq!(kern_lookup(&table, 20), 12);
}

#[test]
fn kern_without_heights_is_constant() {
    let table = KernTable { heights: vec![], kerns: vec![42] };
    assert_eq!(kern_lookup(&table, -1000), 42);
    assert_eq!(kern_lookup(&table, 0), 42);
    assert_eq!(kern_lookup(&table, 1000), 42);
}

#[test]
fn kern_with_negative_heights() {
    let table = KernTable { heights: vec![-20, -10], kerns: vec![-3, 0, 3] };
    assert_eq!(kern_lookup(&table, -25), -3);
    assert_eq!(kern_lookup(&table, -15), 0);
    assert_eq!(kern_lookup(&table, -5), 3);
}
