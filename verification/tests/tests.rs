//! Capability implementations written the way a field-by-field code generator
//! would write them: each field either resolved through `get` or seeded by an
//! expression over the shared input.

use std::sync::Arc;

use forgy::Build;
use forgy::Container;
use forgy::CycleError;

struct Unit;

impl Build<()> for Unit {
    fn build(_: &mut Container<()>) -> Result<Self, CycleError> {
        Ok(Unit)
    }
}

#[allow(unused)]
struct Tuple(Arc<Unit>);

impl Build<()> for Tuple {
    fn build(constructor: &mut Container<()>) -> Result<Self, CycleError> {
        Ok(Tuple(constructor.get()?))
    }
}

#[allow(unused)]
struct Struct {
    unit: Arc<Unit>,
}

impl Build<()> for Struct {
    fn build(constructor: &mut Container<()>) -> Result<Self, CycleError> {
        Ok(Struct { unit: constructor.get()? })
    }
}

struct Input {
    string: String,
}

struct FromInput {
    from_input: String,
}

impl Build<Input> for FromInput {
    fn build(constructor: &mut Container<Input>) -> Result<Self, CycleError> {
        Ok(FromInput { from_input: constructor.input().string.clone() })
    }
}

struct AmbiDep;

impl<I> Build<I> for AmbiDep {
    fn build(_: &mut Container<I>) -> Result<Self, CycleError> {
        Ok(AmbiDep)
    }
}

struct Ambivalent {
    from_input: String,
    #[allow(unused)]
    dep: Arc<AmbiDep>,
}

impl Build<Input> for Ambivalent {
    fn build(constructor: &mut Container<Input>) -> Result<Self, CycleError> {
        Ok(Ambivalent {
            from_input: constructor.input().string.clone(),
            dep: constructor.get()?,
        })
    }
}

#[allow(unused)]
struct Caching {
    some_cache: std::collections::HashSet<String>,
}

impl Build<()> for Caching {
    fn build(_: &mut Container<()>) -> Result<Self, CycleError> {
        Ok(Caching { some_cache: Default::default() })
    }
}

struct Sized16 {
    max_tasks: u32,
}

impl Build<()> for Sized16 {
    fn build(_: &mut Container<()>) -> Result<Self, CycleError> {
        Ok(Sized16 { max_tasks: 16 })
    }
}

#[test]
fn derives_on_unit() {
    let mut c = Container::new(());

    let _: Arc<Unit> = c.get().unwrap();
}

#[test]
fn derives_on_tuple() {
    let mut c = Container::new(());

    let _: Arc<Tuple> = c.get().unwrap();
}

#[test]
fn derives_on_struct() {
    let mut c = Container::new(());

    let _: Arc<Struct> = c.get().unwrap();
}

#[test]
fn derives_with_input() {
    let mut c = Container::new(Input { string: "some string".to_string() });

    let s: Arc<FromInput> = c.get().unwrap();
    assert_eq!(s.from_input, "some string");
}

#[test]
fn derives_with_input_and_ambivalend() {
    let mut c = Container::new(Input { string: "some string".to_string() });

    let s: Arc<Ambivalent> = c.get().unwrap();
    assert_eq!(s.from_input, "some string");
}

#[test]
fn constructs_default_values() {
    let mut c = Container::new(());

    let _: Arc<Caching> = c.get().unwrap();
}

#[test]
fn constructs_with_value() {
    let mut c = Container::new(());

    let s: Arc<Sized16> = c.get().unwrap();
    assert_eq!(s.max_tasks, 16);
}
