use std::path::PathBuf;

use clevercloud_operator::cmd::crd::{CustomResourceDefinition, CustomResourceDefinitionError};
use clevercloud_operator::cmd::lifecycle::{Daemon, DaemonReply, DaemonRequest, Watcher};
use clevercloud_operator::cmd::proxy::{build_proxy, ProxySource};
use clevercloud_operator::cmd::{daemon, AddressError, Args, Command, CommandError};
use clevercloud_operator::svc::cfg::{Configuration, Operator, ProxyConfiguration};
use clevercloud_operator::svc::k8s::client::ClientError;

const ORDER: [Watcher; 7] = [
    Watcher::Postgresql,
    Watcher::Redis,
    Watcher::Mysql,
    Watcher::Mongodb,
    Watcher::Pulsar,
    Watcher::ConfigProvider,
    Watcher::Elasticsearch,
];

fn configuration(http: Option<&str>, https: Option<&str>) -> Configuration {
    Configuration {
        operator: Operator { listen: "0.0.0.0:8080".to_string() },
        proxy: Some(ProxyConfiguration {
            http: http.map(|url| url.to_string()),
            https: https.map(|url| url.to_string()),
            no: vec!["localhost".to_string()],
        }),
    }
}

fn step(stage: Daemon, reply: DaemonReply) -> Daemon {
    assert!(stage.accepts(&reply));
    stage.advance(reply)
}

fn watching() -> Daemon {
    let stage = daemon(None, configuration(None, None));
    let stage = step(stage, DaemonReply::KubeClient(Ok(())));
    step(stage, DaemonReply::Connector(Ok(())))
}

fn listening() -> Daemon {
    let mut stage = watching();
    for _ in 0..7 {
        stage = step(stage, DaemonReply::Done);
    }
    stage
}

#[test]
fn daemon_runs_to_its_end() {
    let path = Some(PathBuf::from("/etc/kubeconfig"));
    let stage = daemon(path.clone(), configuration(Some("http://p"), Some("https://s")));
    assert_eq!(stage.request(), Some(DaemonRequest::CreateKubeClient(&path)));

    let stage = step(stage, DaemonReply::KubeClient(Ok(())));
    let source = ProxySource::Configured {
        url: "https://s".to_string(),
        no: vec!["localhost".to_string()],
    };
    assert_eq!(stage.request(), Some(DaemonRequest::BuildConnector(&source)));

    let mut stage = step(stage, DaemonReply::Connector(Ok(())));
    for watcher in ORDER {
        assert_eq!(stage.request(), Some(DaemonRequest::StartWatcher(watcher)));
        stage = step(stage, DaemonReply::Done);
    }

    let listen = "0.0.0.0:8080".to_string();
    assert_eq!(stage.request(), Some(DaemonRequest::ParseListen(&listen)));
    let stage = step(stage, DaemonReply::Listen(Ok(())));
    assert_eq!(stage.request(), Some(DaemonRequest::StartServer(&listen)));
    let stage = step(stage, DaemonReply::Done);
    assert_eq!(stage.request(), Some(DaemonRequest::AwaitTermination));

    let mut stage = step(stage, DaemonReply::Terminated(Ok(())));
    for watcher in ORDER {
        assert_eq!(stage.request(), Some(DaemonRequest::AbortWatcher(watcher)));
        stage = step(stage, DaemonReply::Done);
    }
    for watcher in ORDER {
        assert_eq!(stage.request(), Some(DaemonRequest::JoinWatcher(watcher)));
        stage = step(stage, DaemonReply::Done);
    }

    assert_eq!(stage.request(), Some(DaemonRequest::AbortServer));
    let stage = step(stage, DaemonReply::Done);
    assert_eq!(stage.request(), Some(DaemonRequest::JoinServer));
    let stage = step(stage, DaemonReply::Done);
    assert_eq!(stage.request(), None);
    assert!(matches!(stage, Daemon::Finished(Ok(()))));
}

#[test]
fn daemon_fails_without_kubernetes_client() {
    let stage = daemon(None, configuration(None, None));
    let err = ClientError { message: "no kubeconfig".to_string() };
    match step(stage, DaemonReply::KubeClient(Err(err))) {
        Daemon::Finished(Err(err)) => {
            assert!(matches!(err, CommandError::Client(_)));
            assert_eq!(err.message(), "failed to create kubernetes client, no kubeconfig");
        }
        _ => panic!("the daemon goes on"),
    }
}

#[test]
fn daemon_fails_without_connector() {
    let stage = daemon(None, configuration(Some("not a url"), None));
    let stage = step(stage, DaemonReply::KubeClient(Ok(())));
    let proxy = build_proxy("not a url".to_string(), Vec::new());
    let cause = match proxy {
        Some(Err(err)) => err,
        _ => panic!("a text that is no url gives a proxy"),
    };
    assert!(cause.to_string().starts_with("failed to parse 'not a url' as url, "));
    let text = format!("failed to create clever cloud client, {}", cause);
    match step(stage, DaemonReply::Connector(Err(cause))) {
        Daemon::Finished(Err(err)) => {
            assert!(matches!(err, CommandError::CleverClient(_)));
            assert_eq!(err.message(), text);
        }
        _ => panic!("the daemon goes on"),
    }
}

#[test]
fn daemon_fails_on_a_wrong_address() {
    let err = AddressError { message: "invalid socket address syntax".to_string() };
    match step(listening(), DaemonReply::Listen(Err(err))) {
        Daemon::Finished(Err(err)) => {
            assert!(matches!(err, CommandError::Listen(_, _)));
            assert_eq!(
                err.message(),
                "failed to parse listen address '0.0.0.0:8080', invalid socket address syntax"
            );
        }
        _ => panic!("the daemon goes on"),
    }
}

#[test]
fn daemon_fails_without_signal() {
    let stage = step(listening(), DaemonReply::Listen(Ok(())));
    let stage = step(stage, DaemonReply::Done);
    let err = std::io::Error::new(std::io::ErrorKind::Other, "no handler");
    match step(stage, DaemonReply::Terminated(Err(err))) {
        Daemon::Finished(Err(err)) => {
            assert!(matches!(err, CommandError::SigTerm(_)));
            assert_eq!(err.message(), "failed to handle termintion signal, no handler");
        }
        _ => panic!("the daemon goes on"),
    }
}

#[test]
fn replies_out_of_turn_are_not_accepted() {
    let stage = daemon(None, configuration(None, None));
    assert!(!stage.accepts(&DaemonReply::Done));
    assert!(!stage.accepts(&DaemonReply::Terminated(Ok(()))));
    assert!(!watching().accepts(&DaemonReply::Connector(Ok(()))));
    assert!(!Daemon::Finished(Ok(())).accepts(&DaemonReply::Done));
}

#[test]
fn proxy_for_https_comes_first() {
    let configured = |url: &str| ProxySource::Configured {
        url: url.to_string(),
        no: vec!["localhost".to_string()],
    };
    let select = |http, https| ProxySource::select(configuration(http, https).proxy);
    assert_eq!(select(Some("http://p"), Some("https://s")), configured("https://s"));
    assert_eq!(select(None, Some("https://s")), configured("https://s"));
    assert_eq!(select(Some("http://p"), None), configured("http://p"));
    assert_eq!(select(None, None), ProxySource::Environment);
    assert_eq!(ProxySource::select(None), ProxySource::Environment);
}

#[test]
fn proxy_is_built_from_a_url_with_a_host() {
    let no = vec!["localhost".to_string(), "10.0.0.0/8".to_string()];
    match build_proxy("http://proxy.local:3128/p?q=1".to_string(), no) {
        Some(Ok(proxy)) => assert_eq!(proxy.uri().to_string(), "http://proxy.local:3128/p?q=1"),
        _ => panic!("the proxy is not built"),
    }
    assert!(matches!(build_proxy("socks5://10.0.0.1:1080".to_string(), Vec::new()), Some(Ok(_))));
}

#[test]
fn proxy_is_built_from_the_selected_source() {
    let source = ProxySource::select(Some(ProxyConfiguration {
        http: Some("http://http.local:3128".to_string()),
        https: Some("http://https.local:3129".to_string()),
        no: vec!["localhost".to_string()],
    }));
    match source.build() {
        Some(Some(Ok(proxy))) => {
            assert_eq!(proxy.uri().to_string(), "http://https.local:3129/");
            let local = "http://localhost/".parse::<hyper::Uri>().unwrap();
            assert!(!proxy.intercept().matches(&local));
        }
        _ => panic!("the proxy is not built"),
    }
    assert!(ProxySource::Environment.build().is_none());
    let hostless = ProxySource::Configured {
        url: "mailto:ops@example.com".to_string(),
        no: Vec::new(),
    };
    assert!(matches!(hostless.build(), Some(None)));
    let wrong = ProxySource::Configured { url: "not a url".to_string(), no: Vec::new() };
    match wrong.build() {
        Some(Some(Err(err))) => {
            assert!(err.to_string().starts_with("failed to parse 'not a url' as url, "))
        }
        _ => panic!("a text that is no url gives a proxy"),
    }
}

#[test]
fn hosts_among_the_rules_are_reached_without_the_proxy() {
    let no = vec!["localhost".to_string(), "10.0.0.0/8".to_string()];
    let proxy = match build_proxy("http://proxy.local:3128".to_string(), no) {
        Some(Ok(proxy)) => proxy,
        _ => panic!("the proxy is not built"),
    };
    let proxied = |uri: &str| proxy.intercept().matches(&uri.parse::<hyper::Uri>().unwrap());
    assert!(!proxied("http://localhost/"));
    assert!(proxied("https://api.clever-cloud.com/v2"));

    let proxy = match build_proxy("http://proxy.local:3128".to_string(), Vec::new()) {
        Some(Ok(proxy)) => proxy,
        _ => panic!("the proxy is not built"),
    };
    let proxied = |uri: &str| proxy.intercept().matches(&uri.parse::<hyper::Uri>().unwrap());
    assert!(proxied("http://localhost/"));
}

#[test]
fn wrong_rule_is_told() {
    let no = vec!["a b".to_string()];
    match build_proxy("http://proxy.local".to_string(), no) {
        Some(Err(err)) => assert_eq!(
            err.to_string(),
            "failed to parse 'a b' as uri, ip address or cidr"
        ),
        _ => panic!("the rule is taken"),
    }
}

#[test]
fn proxy_is_not_built_from_other_texts() {
    assert!(build_proxy("mailto:ops@example.com".to_string(), Vec::new()).is_none());
    assert!(matches!(build_proxy("".to_string(), Vec::new()), Some(Err(_))));
    assert!(matches!(build_proxy("proxy.local".to_string(), Vec::new()), Some(Err(_))));
    let no = vec!["a b".to_string()];
    assert!(matches!(build_proxy("http://proxy.local".to_string(), no), Some(Err(_))));
}

#[test]
fn watchers_have_an_order_and_names() {
    let mut watcher = Watcher::Postgresql;
    let mut names = vec![watcher.name()];
    while let Some(next) = watcher.successor() {
        watcher = next;
        names.push(watcher.name());
    }
    assert_eq!(
        names,
        vec![
            "postgresql",
            "redis",
            "mysql",
            "mongodb",
            "pulsar",
            "config-provider",
            "elasticsearch"
        ]
    );
}

#[test]
fn command_tells_its_name_where_it_fails() {
    let args = Args {
        verbosity: 0,
        kubeconfig: None,
        config: None,
        check: false,
        command: Some(Command::CustomResourceDefinition(CustomResourceDefinition {
            arguments: vec!["view".to_string()],
        })),
    };
    let command = args.command.unwrap();
    assert!(command.execute(Ok(())).is_ok());

    let err = CustomResourceDefinitionError { message: "no such resource".to_string() };
    let err = command.execute(Err(err)).unwrap_err();
    match &err {
        CommandError::Execution(name, cause) => {
            assert_eq!(name, "custom-resource-definition");
            assert!(matches!(**cause, CommandError::CustomResourceDefinition(_)));
            assert_eq!(cause.message(), "failed to execute command, no such resource");
        }
        _ => panic!("another error comes out"),
    }
    assert_eq!(
        err.message(),
        "failed to execute command 'custom-resource-definition', failed to execute command, no such resource"
    );
}
