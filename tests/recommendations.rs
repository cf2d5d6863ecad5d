use pty_session::help::{recommendations, topic, Help, Topic, GENERAL_INFO};

fn names(h: &Help) -> Vec<String> {
    h.invoke().recommendations.iter().map(|r| r.tool_name.clone()).collect()
}

#[test]
fn no_query_gives_general_list_and_note() {
    let h = Help::new(None, None);
    let r = h.invoke();
    assert_eq!(names(&h), vec!["/context", "knowledge", "/agent", "/tools"]);
    assert_eq!(r.general_info.as_deref(), Some(GENERAL_INFO));
    assert_eq!(r.recommendations[3].description, "View all available tools and permissions");
    assert!(h.validate().is_ok());
}

#[test]
fn use_case_alone_drops_the_note() {
    let h = Help::new(None, Some("testing".to_string()));
    assert_eq!(names(&h), vec!["/context", "knowledge", "/agent", "/tools"]);
    assert_eq!(h.invoke().general_info, None);
}

#[test]
fn queries_pick_topics() {
    let q = |s: &str| Help::new(Some(s.to_string()), None);
    assert_eq!(names(&q("how do I add files")), vec!["/context", "knowledge"]);
    assert_eq!(names(&q("remember this")), vec!["knowledge"]);
    assert_eq!(names(&q("switch agent")), vec!["/agent"]);
    assert_eq!(names(&q("reset the session")), vec!["/clear", "/compact", "/usage"]);
    assert_eq!(names(&q("multiline prompt")), vec!["/editor"]);
    assert_eq!(names(&q("something else")), vec!["/context", "knowledge", "/agent", "/tools"]);
    assert_eq!(q("x").invoke().general_info, None);
}

#[test]
fn earlier_groups_win() {
    assert_eq!(topic(&Some("store the repo map".to_string())), Topic::Context);
    assert_eq!(topic(&Some("save my session".to_string())), Topic::Knowledge);
    assert_eq!(topic(&Some("Context".to_string())), Topic::General);
    assert_eq!(topic(&None), Topic::General);
}

#[test]
fn records_carry_examples() {
    let recs = recommendations(Topic::Editor);
    assert_eq!(recs.len(), 1);
    assert_eq!(recs[0].example.as_deref(), Some("Perfect for detailed requirements or when you need to paste code/logs"));
    assert_eq!(recs[0].use_case, "Write complex prompts or paste large text blocks");
}
