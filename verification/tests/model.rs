use std::cell::RefCell;
use std::rc::Rc;

use sgrmath_core::{
    Compiled, CompiledIteration, Error, Iteration, IterationSize, NotImplementedIteration,
    OptimizationDirection, Size,
};

#[test]
fn size_len() {
    let size = Size::new(100usize);
    assert_eq!(size.width, 100);
    assert_eq!(size.height, 1);
    assert_eq!(size.depth, 1);
    assert_eq!(size.len(), 100);
    assert!(!size.is_empty());

    let size = Size::new((4usize, 5usize));
    assert_eq!(size.len(), 20);

    let size = Size::new((2usize, 3usize, 4usize));
    assert_eq!(size.len(), 24);

    let size = Size::new((0usize, 0usize, 0usize));
    assert_eq!(size.len(), 0);
    assert!(size.is_empty());
}

#[test]
fn optimization_direction() {
    assert!(OptimizationDirection::Minimize.is_minimize());
    assert!(!OptimizationDirection::Minimize.is_maximize());
    assert!(OptimizationDirection::Maximize.is_maximize());
    assert!(!OptimizationDirection::Maximize.is_minimize());
}

#[test]
fn iteration_size_from() {
    assert!(matches!(IterationSize::from(7usize), IterationSize::Count(7)));
}

#[test]
fn not_implemented_rejects_every_operation() {
    // The sentinel leaf fails at once with the configured message, whatever
    // the operation, and never partially executes.
    let mut leaf = NotImplementedIteration::new("stage not configured");
    let params: usize = 3;
    assert_eq!(
        Iteration::<usize>::bind(&mut leaf, &params),
        Err(Error::NotImplemented("stage not configured".to_string()))
    );
    assert_eq!(
        Iteration::<usize>::evaluate(&mut leaf),
        Err(Error::NotImplemented("stage not configured".to_string()))
    );
    assert!(Iteration::<usize>::evaluate_async(&mut leaf).is_err());
    assert_eq!(
        Iteration::<usize>::evaluate_with_params(&mut leaf, &params),
        Err(Error::NotImplemented("stage not configured".to_string()))
    );
    assert!(Iteration::<usize>::evaluate_with_params_async(&mut leaf, &params).is_err());
    assert_eq!(
        Error::NotImplemented("stage not configured".to_string()).message(),
        "stage not configured"
    );
}

struct CountingOptions {
    compiles: Rc<RefCell<usize>>,
}

struct CountingIteration {
    binds: usize,
}

impl Compiled<usize, CountingIteration> for CountingOptions {
    fn compile(&self, _params: &usize) -> CountingIteration {
        *self.compiles.borrow_mut() += 1;
        CountingIteration { binds: 0 }
    }
}

impl Iteration<usize> for CountingIteration {
    fn bind(&mut self, _params: &usize) -> Result<(), Error> {
        self.binds += 1;
        Ok(())
    }

    fn evaluate(&mut self) -> Result<(), Error> {
        if self.binds == 0 {
            Err(Error::NotBound)
        } else {
            Ok(())
        }
    }

    fn evaluate_async(&mut self) -> Result<Vec<wgpu::CommandBuffer>, Error> {
        Ok(vec![])
    }

    fn evaluate_with_params(&mut self, _params: &usize) -> Result<(), Error> {
        Ok(())
    }

    fn evaluate_with_params_async(
        &mut self,
        _params: &usize,
    ) -> Result<Vec<wgpu::CommandBuffer>, Error> {
        Ok(vec![])
    }
}

#[test]
fn lazy_compilation_happens_once() {
    // The wrapper compiles on the first bind and never again: later binds go
    // to the compiled iteration.
    let compiles = Rc::new(RefCell::new(0usize));
    let mut wrapper: CompiledIteration<CountingOptions, CountingIteration, usize> =
        CompiledIteration::new(CountingOptions { compiles: compiles.clone() });

    // Evaluating before any bind fails: compilation needs a parameter sample.
    assert_eq!(wrapper.evaluate(), Err(Error::NotBound));
    assert_eq!(*compiles.borrow(), 0);

    wrapper.bind(&7).unwrap();
    assert_eq!(*compiles.borrow(), 1);

    wrapper.bind(&8).unwrap();
    wrapper.bind(&9).unwrap();
    assert_eq!(*compiles.borrow(), 1);

    match &wrapper {
        CompiledIteration::Iteration(it) => assert_eq!(it.binds, 3),
        CompiledIteration::Options(_, _) => panic!("wrapper did not compile"),
    }

    wrapper.evaluate().unwrap();
}

#[test]
fn error_messages() {
    assert_eq!(
        Error::Infeasible.message(),
        "total size is less than the sum of fixed sizes"
    );
    assert_eq!(Error::EmptyData.message(), "cannot update buffer with empty data");
    assert_eq!(Error::Overflow.message(), "offset or length arithmetic overflow");
    assert_eq!(Error::OutOfBounds.message(), "access beyond buffer bounds");
    assert_eq!(Error::NotBound.message(), "evaluate called before bind");
    assert_eq!(Error::Device.message(), "device poll failed");
}
