use std::cell::RefCell;
use std::ops::Range;
use std::rc::Rc;

use sgrmath_core::{Error, Iteration, IterationSize, NotImplementedIteration, Sliced, SlicedIteration};

#[test]
fn distribute() {
    assert_eq!(
        SlicedIteration::<TestParams, NotImplementedIteration>::new()
            .add(IterationSize::Count(1), NotImplementedIteration::new("1"))
            .add(IterationSize::Count(9), NotImplementedIteration::new("2"))
            .add(IterationSize::Proportional(1), NotImplementedIteration::new("3"))
            .add(IterationSize::Proportional(1), NotImplementedIteration::new("4"))
            .distribute(20)
            .unwrap(),
        vec![1, 9, 5, 5]
    );
    assert_eq!(
        SlicedIteration::<TestParams, NotImplementedIteration>::new()
            .add(IterationSize::Count(1), NotImplementedIteration::new("1"))
            .add(IterationSize::Count(9), NotImplementedIteration::new("2"))
            .add(IterationSize::Proportional(1), NotImplementedIteration::new("3"))
            .add(IterationSize::Proportional(1), NotImplementedIteration::new("4"))
            .distribute(17)
            .unwrap(),
        vec![1, 9, 3, 4]
    );
    assert_eq!(
        SlicedIteration::<TestParams, NotImplementedIteration>::new()
            .add(IterationSize::Count(1), NotImplementedIteration::new("1"))
            .add(IterationSize::Count(9), NotImplementedIteration::new("2"))
            .add(IterationSize::Proportional(1), NotImplementedIteration::new("3"))
            .add(IterationSize::Proportional(2), NotImplementedIteration::new("4"))
            .distribute(17)
            .unwrap(),
        vec![1, 9, 2, 5]
    );
}

#[test]
fn bind() {
    let (params, _, mut iteration) = prepare();
    iteration.bind(&TestParams { start: 0, end: 20 }).unwrap();

    assert_eq!(
        params.borrow().iter().map(|p| p.start..p.end).collect::<Vec<_>>(),
        vec![0..1, 1..10, 10..13, 13..20]
    );
}

#[test]
fn evaluate() {
    let (_, evaluated, mut iteration) = prepare();
    iteration.bind(&TestParams { start: 0, end: 20 }).unwrap();
    iteration.evaluate().unwrap();

    assert_eq!(
        evaluated.borrow().iter().map(|s| s.clone()).collect::<Vec<_>>(),
        vec!["1", "2", "3", "4"]
    );
}

#[test]
fn evaluate_with_params() {
    let (params, evaluated, mut iteration) = prepare();
    iteration.evaluate_with_params(&TestParams { start: 11, end: 31 }).unwrap();

    assert_eq!(
        params.borrow().iter().map(|p| p.start..p.end).collect::<Vec<_>>(),
        vec![11..12, 12..21, 21..24, 24..31]
    );
    assert_eq!(
        evaluated.borrow().iter().map(|s| s.clone()).collect::<Vec<_>>(),
        vec!["1", "2", "3", "4"]
    );
}

#[test]
fn evaluate_async() {
    let (_, evaluated, mut iteration) = prepare();
    iteration.bind(&TestParams { start: 0, end: 20 }).unwrap();
    iteration.evaluate_async().unwrap();

    assert_eq!(
        evaluated.borrow().iter().map(|s| s.clone()).collect::<Vec<_>>(),
        vec!["1", "2", "3", "4"]
    );
}

#[test]
fn evaluate_with_params_async() {
    let (params, evaluated, mut iteration) = prepare();
    iteration.evaluate_with_params_async(&TestParams { start: 11, end: 31 }).unwrap();

    assert_eq!(
        params.borrow().iter().map(|p| p.start..p.end).collect::<Vec<_>>(),
        vec![11..12, 12..21, 21..24, 24..31]
    );
    assert_eq!(
        evaluated.borrow().iter().map(|s| s.clone()).collect::<Vec<_>>(),
        vec!["1", "2", "3", "4"]
    );
}

#[test]
fn distribute_infeasible() {
    let mut iteration = SlicedIteration::<TestParams, NotImplementedIteration>::new()
        .add(IterationSize::Count(10), NotImplementedIteration::new("1"))
        .add(IterationSize::Count(9), NotImplementedIteration::new("2"));
    assert_eq!(iteration.distribute(18), Err(Error::Infeasible));
}

#[test]
fn bind_infeasible_before_any_child() {
    // The fixed sizes together exceed the range: the bind fails before any
    // child runs.
    let (params, evaluated, mut iteration) = prepare();
    assert_eq!(
        iteration.bind(&TestParams { start: 0, end: 5 }),
        Err(Error::Infeasible)
    );
    assert!(params.borrow().is_empty());
    assert!(evaluated.borrow().is_empty());
}

#[test]
fn bind_stops_at_failing_child() {
    let params = Rc::new(RefCell::new(vec![]));
    let evaluated = Rc::new(RefCell::new(vec![]));
    let mut iteration = SlicedIteration::<TestParams, MixedIteration>::new()
        .add(
            IterationSize::Count(3),
            MixedIteration::Recording(TestIteration::new("1", params.clone(), evaluated.clone())),
        )
        .add(
            IterationSize::Proportional(1),
            MixedIteration::Failing(NotImplementedIteration::new("broken")),
        )
        .add(
            IterationSize::Proportional(1),
            MixedIteration::Recording(TestIteration::new("3", params.clone(), evaluated.clone())),
        );
    let r = iteration.bind(&TestParams { start: 0, end: 9 });
    assert_eq!(r, Err(Error::NotImplemented("broken".to_string())));
    // Only the child before the failing one was bound, with its sub-range.
    assert_eq!(
        params.borrow().iter().map(|p| p.start..p.end).collect::<Vec<_>>(),
        vec![0..3]
    );
}

fn prepare() -> (
    Rc<RefCell<Vec<TestParams>>>,
    Rc<RefCell<Vec<String>>>,
    SlicedIteration<TestParams, TestIteration>,
) {
    let params = Rc::new(RefCell::new(vec![]));
    let evaluated = Rc::new(RefCell::new(vec![]));
    let iteration = SlicedIteration::<TestParams, TestIteration>::new()
        .add(
            IterationSize::Count(1),
            TestIteration::new("1", params.clone(), evaluated.clone()),
        )
        .add(
            IterationSize::Count(9),
            TestIteration::new("2", params.clone(), evaluated.clone()),
        )
        .add(
            IterationSize::Proportional(1),
            TestIteration::new("3", params.clone(), evaluated.clone()),
        )
        .add(
            IterationSize::Proportional(2),
            TestIteration::new("4", params.clone(), evaluated.clone()),
        );

    (params, evaluated, iteration)
}

#[derive(Clone)]
struct TestParams {
    start: usize,
    end: usize,
}

struct TestIteration {
    name: String,
    params: Rc<RefCell<Vec<TestParams>>>,
    evaluated: Rc<RefCell<Vec<String>>>,
}

impl TestIteration {
    fn new<S>(
        name: S,
        params: Rc<RefCell<Vec<TestParams>>>,
        evaluated: Rc<RefCell<Vec<String>>>,
    ) -> Self
    where
        S: Into<String>,
    {
        Self {
            name: name.into(),
            params,
            evaluated,
        }
    }
}

impl Iteration<TestParams> for TestIteration {
    fn bind(&mut self, params: &TestParams) -> Result<(), Error> {
        self.params.borrow_mut().push(params.clone());
        Ok(())
    }

    fn evaluate(&mut self) -> Result<(), Error> {
        self.evaluated.borrow_mut().push(self.name.clone());
        Ok(())
    }

    fn evaluate_async(&mut self) -> Result<Vec<wgpu::CommandBuffer>, Error> {
        self.evaluated.borrow_mut().push(self.name.clone());
        Ok(vec![])
    }

    fn evaluate_with_params(&mut self, params: &TestParams) -> Result<(), Error> {
        self.params.borrow_mut().push(params.clone());
        self.evaluated.borrow_mut().push(self.name.clone());
        Ok(())
    }

    fn evaluate_with_params_async(
        &mut self,
        params: &TestParams,
    ) -> Result<Vec<wgpu::CommandBuffer>, Error> {
        self.params.borrow_mut().push(params.clone());
        self.evaluated.borrow_mut().push(self.name.clone());
        Ok(vec![])
    }
}

enum MixedIteration {
    Recording(TestIteration),
    Failing(NotImplementedIteration),
}

impl Iteration<TestParams> for MixedIteration {
    fn bind(&mut self, params: &TestParams) -> Result<(), Error> {
        match self {
            MixedIteration::Recording(it) => it.bind(params),
            MixedIteration::Failing(it) => it.bind(params),
        }
    }

    fn evaluate(&mut self) -> Result<(), Error> {
        match self {
            MixedIteration::Recording(it) => it.evaluate(),
            MixedIteration::Failing(it) => Iteration::<TestParams>::evaluate(it),
        }
    }

    fn evaluate_async(&mut self) -> Result<Vec<wgpu::CommandBuffer>, Error> {
        match self {
            MixedIteration::Recording(it) => it.evaluate_async(),
            MixedIteration::Failing(it) => Iteration::<TestParams>::evaluate_async(it),
        }
    }

    fn evaluate_with_params(&mut self, params: &TestParams) -> Result<(), Error> {
        match self {
            MixedIteration::Recording(it) => it.evaluate_with_params(params),
            MixedIteration::Failing(it) => it.evaluate_with_params(params),
        }
    }

    fn evaluate_with_params_async(
        &mut self,
        params: &TestParams,
    ) -> Result<Vec<wgpu::CommandBuffer>, Error> {
        match self {
            MixedIteration::Recording(it) => it.evaluate_with_params_async(params),
            MixedIteration::Failing(it) => it.evaluate_with_params_async(params),
        }
    }
}

impl Sliced for TestParams {
    fn range(&self) -> Range<usize> {
        self.start..self.end
    }

    fn set_range(&mut self, range: Range<usize>) {
        self.start = range.start;
        self.end = range.end;
    }
}

#[test]
fn bind_partitions_parent_range() {
    // Fixed sizes 1 and 9 with equal weights over the parent range 0..20:
    // the children receive 0..1, 1..10, 10..15 and 15..20, contiguous and
    // covering the parent range exactly.
    let params = Rc::new(RefCell::new(vec![]));
    let evaluated = Rc::new(RefCell::new(vec![]));
    let mut iteration = SlicedIteration::<TestParams, TestIteration>::new()
        .add(
            IterationSize::Count(1),
            TestIteration::new("1", params.clone(), evaluated.clone()),
        )
        .add(
            IterationSize::Count(9),
            TestIteration::new("2", params.clone(), evaluated.clone()),
        )
        .add(
            IterationSize::Proportional(1),
            TestIteration::new("3", params.clone(), evaluated.clone()),
        )
        .add(
            IterationSize::Proportional(1),
            TestIteration::new("4", params.clone(), evaluated.clone()),
        );
    iteration.bind(&TestParams { start: 0, end: 20 }).unwrap();
    assert_eq!(
        params.borrow().iter().map(|p| p.start..p.end).collect::<Vec<_>>(),
        vec![0..1, 1..10, 10..15, 15..20]
    );
}

#[test]
fn distribute_all_weight_in_last() {
    // A zero weight before a positive one: the zero-weight entry receives
    // nothing, the last proportional entry takes the whole remainder.
    let mut iteration = SlicedIteration::<TestParams, NotImplementedIteration>::new()
        .add(IterationSize::Proportional(0), NotImplementedIteration::new("1"))
        .add(IterationSize::Proportional(3), NotImplementedIteration::new("2"));
    assert_eq!(iteration.distribute(10).unwrap(), vec![0, 10]);
}

#[test]
fn distribute_cache_reused_until_structural_change() {
    // A second distribute call returns the cached counts; adding a child
    // invalidates them.
    let mut iteration = SlicedIteration::<TestParams, NotImplementedIteration>::new()
        .add(IterationSize::Proportional(1), NotImplementedIteration::new("1"))
        .add(IterationSize::Proportional(1), NotImplementedIteration::new("2"));
    assert_eq!(iteration.distribute(10).unwrap(), vec![5, 5]);
    assert_eq!(iteration.distribute(10).unwrap(), vec![5, 5]);
    let mut iteration = iteration.add(
        IterationSize::Count(2),
        NotImplementedIteration::new("3"),
    );
    assert_eq!(iteration.distribute(10).unwrap(), vec![4, 4, 2]);
}

#[test]
fn bind_overflow_with_stale_counts() {
    // A distribution cached for a much larger total is reused as it is; the
    // partition arithmetic then overflows the address space and the bind
    // fails before touching any child.
    let params = Rc::new(RefCell::new(vec![]));
    let evaluated = Rc::new(RefCell::new(vec![]));
    let mut iteration = SlicedIteration::<TestParams, TestIteration>::new()
        .add(
            IterationSize::Proportional(1),
            TestIteration::new("1", params.clone(), evaluated.clone()),
        )
        .add(
            IterationSize::Proportional(1),
            TestIteration::new("2", params.clone(), evaluated.clone()),
        );
    iteration.distribute(usize::MAX).unwrap();
    let r = iteration.bind(&TestParams { start: usize::MAX - 5, end: usize::MAX });
    assert_eq!(r, Err(Error::Overflow));
    assert!(params.borrow().is_empty());
}

#[test]
fn plain_ranges_as_params() {
    // A bare index range is its own parameter value: slicing 0..12 over
    // two equal weights hands each child half the range.
    let mut iteration = SlicedIteration::<Range<usize>, RangeRecorder>::new()
        .add(IterationSize::Proportional(1), RangeRecorder::default())
        .add(IterationSize::Proportional(1), RangeRecorder::default());
    iteration.bind(&(0..12)).unwrap();
    let seen: Vec<Range<usize>> = iteration
        .children
        .iter()
        .flat_map(|(_, child)| child.seen.clone())
        .collect();
    assert_eq!(seen, vec![0..6, 6..12]);
}

#[derive(Default)]
struct RangeRecorder {
    seen: Vec<Range<usize>>,
}

impl Iteration<Range<usize>> for RangeRecorder {
    fn bind(&mut self, params: &Range<usize>) -> Result<(), Error> {
        self.seen.push(params.clone());
        Ok(())
    }

    fn evaluate(&mut self) -> Result<(), Error> {
        Ok(())
    }

    fn evaluate_async(&mut self) -> Result<Vec<wgpu::CommandBuffer>, Error> {
        Ok(vec![])
    }

    fn evaluate_with_params(&mut self, params: &Range<usize>) -> Result<(), Error> {
        self.seen.push(params.clone());
        Ok(())
    }

    fn evaluate_with_params_async(
        &mut self,
        params: &Range<usize>,
    ) -> Result<Vec<wgpu::CommandBuffer>, Error> {
        self.seen.push(params.clone());
        Ok(vec![])
    }
}
