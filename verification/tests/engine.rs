use stage_pipeline::{FromArgs, Stage, StageError, StageFile, StageManager, StageName};

#[derive(Debug, Clone, PartialEq)]
struct Trace {
    log: Vec<String>,
    x: i64,
}

fn start(x: i64) -> Trace {
    Trace { log: Vec::new(), x }
}

fn pipeline(entries: &[(&str, i64)]) -> StageFile<i64> {
    let mut file = StageFile::new();
    for (name, arg) in entries {
        file.push(name.to_string(), *arg);
    }
    file
}

struct Plus {
    by: i64,
}

impl Stage<Trace> for Plus {
    fn setup(&mut self) {}

    fn run(&self, c: &mut Trace) -> Result<(), StageError> {
        c.x += self.by;
        c.log.push(format!("plus {}", self.by));
        Ok(())
    }
}

impl StageName for Plus {
    fn stage_name() -> &'static str {
        "plus"
    }
}

impl FromArgs<i64> for Plus {
    fn from_args(args: &i64) -> Option<Self> {
        Some(Plus { by: *args })
    }
}

struct Times {
    by: i64,
}

impl Stage<Trace> for Times {
    fn setup(&mut self) {}

    fn run(&self, c: &mut Trace) -> Result<(), StageError> {
        c.x *= self.by;
        c.log.push(format!("times {}", self.by));
        Ok(())
    }
}

impl StageName for Times {
    fn stage_name() -> &'static str {
        "times"
    }
}

impl FromArgs<i64> for Times {
    fn from_args(args: &i64) -> Option<Self> {
        // Zero is no factor that this stage accepts.
        if *args == 0 {
            None
        } else {
            Some(Times { by: *args })
        }
    }
}

struct Halt {
    code: u32,
}

impl Stage<Trace> for Halt {
    fn setup(&mut self) {}

    fn run(&self, c: &mut Trace) -> Result<(), StageError> {
        c.log.push("halt".to_string());
        Err(StageError::Failed { code: self.code })
    }
}

impl FromArgs<i64> for Halt {
    fn from_args(args: &i64) -> Option<Self> {
        Some(Halt { code: *args as u32 })
    }
}

struct Probe {
    set_up: i64,
}

impl Stage<Trace> for Probe {
    fn setup(&mut self) {
        self.set_up += 1;
    }

    fn run(&self, c: &mut Trace) -> Result<(), StageError> {
        c.x = self.set_up;
        Ok(())
    }
}

impl FromArgs<i64> for Probe {
    fn from_args(_args: &i64) -> Option<Self> {
        Some(Probe { set_up: 0 })
    }
}

#[test]
fn empty_pipeline_leaves_context() {
    let m: StageManager<Trace, i64> = StageManager::from_file(StageFile::new());
    let mut c = start(4);
    assert_eq!(m.run_stages(&mut c), Ok(()));
    assert_eq!(c, start(4));
}

#[test]
fn stages_run_in_declared_order() {
    let mut m = StageManager::from_file(pipeline(&[("plus", 3), ("times", 4), ("plus", 1), ("times", 2)]));
    m.register::<Plus>().register::<Times>();
    let mut c = start(1);
    assert_eq!(m.run_stages(&mut c), Ok(()));
    assert_eq!(c.x, 34);
    assert_eq!(c.log, vec!["plus 3", "times 4", "plus 1", "times 2"]);
}

#[test]
fn order_matters() {
    let mut a = StageManager::from_file(pipeline(&[("plus", 2), ("times", 5)]));
    a.register::<Plus>().register::<Times>();
    let mut b = StageManager::from_file(pipeline(&[("times", 5), ("plus", 2)]));
    b.register::<Plus>().register::<Times>();
    let mut ca = start(1);
    let mut cb = start(1);
    assert_eq!(a.run_stages(&mut ca), Ok(()));
    assert_eq!(b.run_stages(&mut cb), Ok(()));
    assert_eq!(ca.x, 15);
    assert_eq!(cb.x, 7);
}

#[test]
fn two_runs_from_equal_contexts_agree() {
    let mut m = StageManager::from_file(pipeline(&[("plus", 1), ("plus", 2), ("times", 5)]));
    m.register::<Plus>().register::<Times>();
    let mut first = start(1);
    let mut second = start(1);
    assert_eq!(m.run_stages(&mut first), Ok(()));
    assert_eq!(m.run_stages(&mut second), Ok(()));
    assert_eq!(first.x, 20);
    assert_eq!(first, second);
}

#[test]
fn later_registration_replaces_earlier() {
    let mut m = StageManager::from_file(pipeline(&[("op", 3)]));
    m.register_named::<Plus>("op");
    let mut c = start(2);
    assert_eq!(m.run_stages(&mut c), Ok(()));
    assert_eq!(c.x, 5);

    m.register_named::<Times>("op");
    let mut c = start(2);
    assert_eq!(m.run_stages(&mut c), Ok(()));
    assert_eq!(c.x, 6);
    assert_eq!(c.log, vec!["times 3"]);
}

#[test]
fn one_type_under_two_names() {
    let mut m = StageManager::from_file(pipeline(&[("plus", 1), ("more", 10)]));
    m.register::<Plus>().register_named::<Plus>("more");
    let mut c = start(0);
    assert_eq!(m.run_stages(&mut c), Ok(()));
    assert_eq!(c.x, 11);
}

#[test]
fn unresolved_name_stops_run() {
    let mut m = StageManager::from_file(pipeline(&[("plus", 1), ("missing", 0), ("plus", 100)]));
    m.register::<Plus>();
    let mut c = start(1);
    assert_eq!(m.run_stages(&mut c), Err(StageError::Unresolved { index: 1 }));
    assert_eq!(c.x, 2);
    assert_eq!(c.log, vec!["plus 1"]);
}

#[test]
fn unresolved_first_name_leaves_context() {
    let m: StageManager<Trace, i64> = StageManager::from_file(pipeline(&[("plus", 1)]));
    let mut c = start(1);
    assert_eq!(m.run_stages(&mut c), Err(StageError::Unresolved { index: 0 }));
    assert_eq!(c, start(1));
}

#[test]
fn refused_arguments_stop_run_when_reached() {
    let mut m = StageManager::from_file(pipeline(&[("plus", 1), ("plus", 2), ("times", 0), ("plus", 4)]));
    m.register::<Plus>().register::<Times>();
    let mut c = start(0);
    assert_eq!(m.run_stages(&mut c), Err(StageError::Malformed { index: 2 }));
    assert_eq!(c.x, 3);
    assert_eq!(c.log, vec!["plus 1", "plus 2"]);
}

#[test]
fn stage_failure_is_handed_on() {
    let mut m = StageManager::from_file(pipeline(&[("plus", 1), ("halt", 7), ("plus", 4)]));
    m.register::<Plus>().register_named::<Halt>("halt");
    let mut c = start(0);
    assert_eq!(m.run_stages(&mut c), Err(StageError::Failed { code: 7 }));
    assert_eq!(c.x, 1);
    assert_eq!(c.log, vec!["plus 1", "halt"]);
}

#[test]
fn setup_runs_once_before_run() {
    let mut m = StageManager::from_file(pipeline(&[("probe", 0)]));
    m.register_named::<Probe>("probe");
    let mut c = start(0);
    assert_eq!(m.run_stages(&mut c), Ok(()));
    assert_eq!(c.x, 1);
    let mut again = start(0);
    assert_eq!(m.run_stages(&mut again), Ok(()));
    assert_eq!(again.x, 1);
}

struct Inner {
    stages: StageManager<Trace, i64>,
    registers: bool,
}

impl Stage<Trace> for Inner {
    fn setup(&mut self) {
        if self.registers {
            self.stages.register::<Plus>().register::<Times>();
        }
    }

    fn run(&self, c: &mut Trace) -> Result<(), StageError> {
        self.stages.run(c)
    }
}

impl FromArgs<i64> for Inner {
    fn from_args(args: &i64) -> Option<Self> {
        Some(Inner {
            stages: StageManager::from_file(pipeline(&[("plus", 1), ("plus", 4)])),
            registers: *args != 0,
        })
    }
}

#[test]
fn nested_pipeline_runs_as_if_inlined() {
    let mut nested = StageManager::from_file(pipeline(&[("plus", 7), ("inner", 1), ("times", 2)]));
    nested.register::<Plus>().register::<Times>().register_named::<Inner>("inner");
    let mut inlined =
        StageManager::from_file(pipeline(&[("plus", 7), ("plus", 1), ("plus", 4), ("times", 2)]));
    inlined.register::<Plus>().register::<Times>();

    let mut a = start(1);
    let mut b = start(1);
    assert_eq!(nested.run_stages(&mut a), Ok(()));
    assert_eq!(inlined.run_stages(&mut b), Ok(()));
    assert_eq!(a.x, 26);
    assert_eq!(a, b);
}

#[test]
fn nested_pipeline_without_registrations_fails() {
    let mut m = StageManager::from_file(pipeline(&[("plus", 7), ("inner", 0), ("times", 2)]));
    m.register::<Plus>().register::<Times>().register_named::<Inner>("inner");
    let mut c = start(1);
    assert_eq!(m.run_stages(&mut c), Err(StageError::Unresolved { index: 0 }));
    assert_eq!(c.x, 8);
    assert_eq!(c.log, vec!["plus 7"]);
}

#[test]
fn stage_file_keeps_declared_order() {
    let mut file: StageFile<i64> = StageFile::new();
    assert_eq!(file.len(), 0);
    file.push("times".to_string(), 3);
    file.push("plus".to_string(), 1);
    assert_eq!(file.len(), 2);
    let mut m = StageManager::from_file(file);
    m.register::<Plus>().register::<Times>();
    let mut c = start(2);
    assert_eq!(m.run_stages(&mut c), Ok(()));
    assert_eq!(c.x, 7);
}
