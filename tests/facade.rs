use hc_core_api::{Agent, Context, Dna, Holochain, HolochainError, Logger, MemoryLogger};

fn test_context(agent: Agent) -> Context<MemoryLogger, ()> {
    Context {
        agent,
        logger: MemoryLogger::new(),
        persister: (),
    }
}

struct BrokenLogger;

impl Logger for BrokenLogger {
    fn log(&mut self, _msg: String) -> Result<(), HolochainError> {
        Err(HolochainError::LoggingError)
    }
}

#[test]
fn can_instantiate() {
    let mut dna = Dna::new();
    dna.name = "TestApp".to_string();
    let agent = Agent::from_string("bob");
    let context = test_context(agent.clone());
    let result = Holochain::new(dna.clone(), context);
    let hc = result.clone().unwrap();
    assert!(!hc.active());
    assert_eq!(hc.context().agent, agent);
    assert_eq!(format!("{:?}", hc.context().logger.lines[0]), "\"TestApp instantiated\"");

    match result {
        Ok(mut hc) => {
            assert_eq!(hc.state().unwrap().nucleus().dna(), Some(dna));
        }
        Err(_) => assert!(false),
    };
}

#[test]
fn can_start_and_stop() {
    let dna = Dna::new();
    let agent = Agent::from_string("bob");
    let context = test_context(agent.clone());
    let mut hc = Holochain::new(dna.clone(), context).unwrap();
    assert!(!hc.clone().active());

    // stop when not active returns error
    let result = hc.stop();
    match result {
        Err(HolochainError::InstanceNotActive) => assert!(true),
        Ok(_) => assert!(false),
        Err(_) => assert!(false),
    }

    let result = hc.start();
    match result {
        Ok(_) => assert!(true),
        Err(_) => assert!(false),
    }
    assert!(hc.active());

    // start when active returns error
    let result = hc.start();
    match result {
        Err(HolochainError::InstanceActive) => assert!(true),
        Ok(_) => assert!(false),
        Err(_) => assert!(false),
    }

    let result = hc.stop();
    match result {
        Ok(_) => assert!(true),
        Err(_) => assert!(false),
    }
    assert!(!hc.active());
}

#[test]
fn can_call() {
    let dna = Dna::new();
    let agent = Agent::from_string("bob");
    let context = test_context(agent.clone());
    let mut hc = Holochain::new(dna.clone(), context).unwrap();
    let result = hc.call("bogusfn");
    match result {
        Err(HolochainError::InstanceNotActive) => assert!(true),
        Ok(_) => assert!(false),
        Err(_) => assert!(false),
    }

    hc.start().expect("couldn't start");

    // always returns not implemented error for now!
    let result = hc.call("bogusfn");
    match result {
        Err(HolochainError::NotImplemented) => assert!(true),
        Ok(_) => assert!(true),
        Err(_) => assert!(false),
    };
}

#[test]
fn can_get_state() {
    let dna = Dna::new();
    let agent = Agent::from_string("bob");
    let context = test_context(agent.clone());
    let mut hc = Holochain::new(dna.clone(), context).unwrap();

    let result = hc.state();
    match result {
        Ok(state) => {
            assert_eq!(state.nucleus().dna(), Some(dna));
        }
        Err(_) => assert!(false),
    };
}

#[test]
fn new_logs_exactly_one_line() {
    let mut dna = Dna::new();
    dna.name = "TestApp".to_string();
    let hc = Holochain::new(dna, test_context(Agent::from_string("bob"))).unwrap();
    assert_eq!(hc.context().logger.lines, vec!["TestApp instantiated".to_string()]);
}

#[test]
fn new_keeps_lines_logged_before() {
    let mut context = test_context(Agent::from_string("alice"));
    context.log("earlier".to_string()).unwrap();
    let mut dna = Dna::new();
    dna.name = "Chat".to_string();
    let hc = Holochain::new(dna, context).unwrap();
    assert_eq!(
        hc.context().logger.lines,
        vec!["earlier".to_string(), "Chat instantiated".to_string()]
    );
}

#[test]
fn new_fails_when_the_logger_fails() {
    let context = Context {
        agent: Agent::from_string("bob"),
        logger: BrokenLogger,
        persister: (),
    };
    let result = Holochain::new(Dna::new(), context);
    assert!(matches!(result, Err(HolochainError::LoggingError)));
}

#[test]
fn new_loads_the_package_and_starts_inactive() {
    let mut dna = Dna::new();
    dna.name = "Wiki".to_string();
    let mut hc = Holochain::new(dna.clone(), test_context(Agent::from_string("carol"))).unwrap();
    assert!(!hc.active());
    let state = hc.state().unwrap();
    assert_eq!(state.nucleus().dna(), Some(dna));
    assert_eq!(state.nucleus().call_result(), None);
}

#[test]
fn stop_on_fresh_facade_fails_and_keeps_it_inactive() {
    let mut hc = Holochain::new(Dna::new(), test_context(Agent::from_string("bob"))).unwrap();
    assert_eq!(hc.stop(), Err(HolochainError::InstanceNotActive));
    assert!(!hc.active());
}

#[test]
fn second_start_fails_and_stays_active() {
    let mut hc = Holochain::new(Dna::new(), test_context(Agent::from_string("bob"))).unwrap();
    assert_eq!(hc.start(), Ok(()));
    assert_eq!(hc.start(), Err(HolochainError::InstanceActive));
    assert!(hc.active());
}

#[test]
fn start_stop_then_stop_again_fails() {
    let mut hc = Holochain::new(Dna::new(), test_context(Agent::from_string("bob"))).unwrap();
    assert_eq!(hc.start(), Ok(()));
    assert_eq!(hc.stop(), Ok(()));
    assert!(!hc.active());
    assert_eq!(hc.stop(), Err(HolochainError::InstanceNotActive));
    assert!(!hc.active());
}

#[test]
fn call_while_inactive_leaves_state_alone() {
    let mut dna = Dna::new();
    dna.name = "Notes".to_string();
    let mut hc = Holochain::new(dna.clone(), test_context(Agent::from_string("bob"))).unwrap();
    let before = hc.state().unwrap().clone();
    assert_eq!(hc.call(""), Err(HolochainError::InstanceNotActive));
    assert_eq!(hc.call("anything"), Err(HolochainError::InstanceNotActive));
    assert_eq!(*hc.state().unwrap(), before);
    assert!(!hc.active());
}

#[test]
fn call_while_active_is_not_implemented_and_leaves_state_alone() {
    let mut dna = Dna::new();
    dna.name = "Notes".to_string();
    let mut hc = Holochain::new(dna.clone(), test_context(Agent::from_string("bob"))).unwrap();
    hc.start().unwrap();
    let before = hc.state().unwrap().clone();
    assert_eq!(hc.call("list_notes"), Err(HolochainError::NotImplemented));
    assert_eq!(*hc.state().unwrap(), before);
    assert_eq!(hc.state().unwrap().nucleus().call_result(), None);
    assert!(hc.active());
}
