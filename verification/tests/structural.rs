use design_patterns::structural::adapter::{
    demo_adapter, make_db_request, DBConnection, MySQL, MysqlAdapter, PostgreSQL, PostgresAdapter,
};
use design_patterns::structural::bridge::{
    demo_bridge, get_os_file_system, AnyFileSystem, FileManager, FileSystem, Linux, MacOS,
    ThunarFileManager, Window, OS,
};
use design_patterns::structural::composite::{
    create_desktop, AnyGraphic, Circle, Desktop, Graphic, Line, Rectangle,
};
use design_patterns::structural::decorator::{
    demo_decorator, Coffee, DecorateOrder, MilkCoffee, Order, Size,
};
use design_patterns::structural::facade::{
    demo_facade, Account, Ledger, Notification, SecurityCode, Wallet, WalletFacade,
};
use design_patterns::structural::flyweight::{
    demo_flyweight, ArticleProvider, UserProvider,
};
use design_patterns::structural::proxy::{demo_proxy, Data, Download, DownloadFileProxy, File};
use design_patterns::transcript::Transcript;
use std::collections::HashMap;

fn lines(texts: &[&str]) -> Vec<String> {
    texts.iter().map(|text| text.to_string()).collect()
}

fn path(parts: &[&str]) -> Vec<String> {
    lines(parts)
}

#[test]
fn database_addresses() {
    let mysql = MySQL { mysql: "localhost".to_string() };
    let postgresql = PostgreSQL { postgresql: "db.example:5432".to_string() };
    assert_eq!(mysql.make_sql_request(), "mysql://localhost");
    assert_eq!(postgresql.make_postgresql_request(), "postgresql://db.example:5432");
    assert_eq!(mysql.request(), "mysql://localhost");
    assert_eq!(postgresql.request(), "postgresql://db.example:5432");
    assert_eq!(make_db_request(&MysqlAdapter { adaptee: mysql }), "mysql://localhost");
    assert_eq!(
        make_db_request(&PostgresAdapter { adaptee: postgresql }),
        "postgresql://db.example:5432"
    );
    assert_eq!(MySQL { mysql: String::new() }.request(), "mysql://");
}

#[test]
fn adapter_demo_addresses() {
    assert_eq!(
        demo_adapter(),
        lines(&[
            "postgresql://localhost",
            "mysql://localhost",
            "mysql://localhost",
            "postgresql://localhost",
        ])
    );
}

#[test]
fn bridge_demo_lines() {
    let mut out = Transcript::new();
    demo_bridge(&mut out);
    assert_eq!(
        out.lines(),
        &lines(&[
            "Window:: Write file at home\\tiny",
            "MacOS:: Write file at home/tiny",
            "Linux::write at home/tiny",
        ])
    );
}

#[test]
fn file_systems_resolve_paths() {
    assert_eq!(Window {}.resolve(path(&["c:", "users", "me"])), "c:\\users\\me");
    assert_eq!(MacOS {}.resolve(path(&["home", "tiny"])), "home/tiny");
    assert_eq!(Linux {}.resolve(path(&["a"])), "a");
    assert_eq!(Linux {}.resolve(path(&[])), "");
    assert_eq!(Linux {}.resolve(path(&["", ""])), "/");
    assert_eq!(AnyFileSystem::Window(Window {}).resolve(path(&["x", "y"])), "x\\y");
}

#[test]
fn file_systems_say_who_they_are() {
    assert_eq!(Window {}.eof(), "\n");
    assert_eq!(MacOS {}.eof(), "\nn");
    assert_eq!(Linux {}.eof(), "\n");
    assert_eq!(Window {}.os(), Some("Window".to_string()));
    assert_eq!(MacOS {}.os(), Some("MacOS".to_string()));
    assert_eq!(Linux {}.os(), None);
    assert_eq!(AnyFileSystem::MacOS(MacOS {}).os(), Some("MacOS".to_string()));
    assert_eq!(AnyFileSystem::Linux(Linux {}).os(), None);
}

#[test]
fn file_systems_read_and_write() {
    let mut out = Transcript::new();
    assert!(Window {}.write("p".to_string(), "c".to_string(), &mut out));
    assert_eq!(Window {}.read("p".to_string(), &mut out), "Window");
    assert!(MacOS {}.write("p".to_string(), "c".to_string(), &mut out));
    assert_eq!(MacOS {}.read("q".to_string(), &mut out), "MacOS");
    assert!(Linux {}.write("p".to_string(), "c".to_string(), &mut out));
    assert_eq!(Linux {}.read("p".to_string(), &mut out), "Linux");
    assert_eq!(
        out.lines(),
        &lines(&[
            "Window:: Write file at p",
            "Window:: Read file at p",
            "MacOS:: Write file at p",
            "MacOS:: Write file at q",
            "Linux::write at p",
            "Linux::read at p",
        ])
    );
}

#[test]
fn file_manager_names_the_system_and_the_path() {
    let mut out = Transcript::new();
    let manager = get_os_file_system(OS::Window);
    assert!(matches!(manager.file_system, AnyFileSystem::Window(_)));
    assert!(manager.copy_file(path(&["home", "tiny"]), &mut out));
    assert!(manager.rename_file(path(&["home", "tiny"]), "small".to_string(), &mut out));
    assert!(manager.remove_file(path(&["home"]), &mut out));
    let manager = ThunarFileManager { file_system: MacOS {} };
    assert!(manager.copy_file(path(&["a", "b", "c"]), &mut out));
    assert!(manager.new_file(path(&["a", "b"]), "text".to_string(), &mut out));
    assert!(matches!(get_os_file_system(OS::MacOS).file_system, AnyFileSystem::MacOS(_)));
    assert!(matches!(get_os_file_system(OS::Linux).file_system, AnyFileSystem::Linux(_)));
    assert_eq!(
        out.lines(),
        &lines(&[
            "Copy::Window::home\\tiny",
            "Rename::Window::home\\tiny -> small",
            "Remove::Window::home",
            "Copy::MacOS::a/b/c",
            "MacOS:: Write file at a/b",
        ])
    );
}

#[test]
fn shapes_draw_one_line_each() {
    let mut out = Transcript::new();
    Circle { radius: 4 }.draw(&mut out);
    Rectangle { x: 12, y: 24 }.draw(&mut out);
    Line { x: 10, y: -20 }.draw(&mut out);
    assert_eq!(
        out.lines(),
        &lines(&["Draw Circle(4)", "draw Rectangle(12,24)", "Draw Line(10,-20)"])
    );
}

#[test]
fn desktop_positions() {
    let mut desk = Desktop::new();
    assert!(desk.get(0).is_none());
    assert_eq!(desk.add(AnyGraphic::Line(Line { x: 1, y: 2 })), 0);
    assert_eq!(desk.add(AnyGraphic::Circle(Circle { radius: 3 })), 1);
    assert!(matches!(desk.get(0), Some(AnyGraphic::Line(Line { x: 1, y: 2 }))));
    assert!(matches!(desk.get(1), Some(AnyGraphic::Circle(Circle { radius: 3 }))));
    assert!(desk.get(2).is_none());
    assert!(desk.remove(1));
}

#[test]
fn desktop_demo_lines() {
    let mut out = Transcript::new();
    create_desktop(&mut out);
    assert_eq!(
        out.lines(),
        &lines(&[
            "Rectangle idx::0 >>>>>>",
            "Draw Line(10,20)",
            "Rectangle idx::0 <<<<<",
            "Circle idx::1 >>>>>>",
            "Draw Circle(4)",
            "Circle idx::1 <<<<<",
            "Rectangle idx::2 >>>>>>",
            "Draw Circle(4)",
            "Rectangle idx::2 <<<<<",
            "Draw Line(10,20)",
            "Draw Circle(4)",
            "draw Rectangle(12,24)",
        ])
    );
}

#[test]
fn desktop_in_a_desktop_is_drawn_in_place() {
    let mut inner = Desktop::new();
    inner.add(AnyGraphic::Circle(Circle { radius: 1 }));
    inner.add(AnyGraphic::Desktop(Desktop::new()));
    inner.add(AnyGraphic::Circle(Circle { radius: 2 }));
    let mut outer = Desktop::new();
    outer.add(AnyGraphic::Line(Line { x: 0, y: 0 }));
    outer.add(AnyGraphic::Desktop(inner));
    outer.add(AnyGraphic::Rectangle(Rectangle { x: 5, y: 6 }));
    let mut out = Transcript::new();
    outer.draw(&mut out);
    assert_eq!(
        out.lines(),
        &lines(&["Draw Line(0,0)", "Draw Circle(1)", "Draw Circle(2)", "draw Rectangle(5,6)"])
    );
    let mut out = Transcript::new();
    Desktop::new().draw(&mut out);
    assert_eq!(out.len(), 0);
}

#[test]
fn decorator_demo_lines() {
    let mut out = Transcript::new();
    demo_decorator(&mut out);
    assert_eq!(
        out.lines(),
        &lines(&[
            "Making coffee",
            "===================",
            "Making coffee",
            "Adding milk to coffee",
        ])
    );
}

#[test]
fn milk_coffee_is_made_like_coffee() {
    let mut out = Transcript::new();
    let milk_coffee = MilkCoffee { coffee: Coffee { size: Size::L }, size: Size::L };
    milk_coffee.make(&mut out);
    assert_eq!(out.lines(), &lines(&["Making coffee"]));
    milk_coffee.add_milk(&mut out);
    assert_eq!(
        out.lines(),
        &lines(&["Making coffee", "Making coffee", "Adding milk to coffee"])
    );
}

#[test]
fn wallet_deposit_and_withdrawal() {
    let mut out = Transcript::new();
    let mut wallet = Wallet::new(5);
    assert_eq!(wallet.deposit(10, &mut out), Ok(()));
    assert_eq!(wallet.balance, 15);
    assert_eq!(wallet.withdrawal(15, &mut out), Ok(()));
    assert_eq!(wallet.balance, 0);
    assert_eq!(wallet.withdrawal(0, &mut out), Err("Invalid withdrawal amount".to_string()));
    assert_eq!(wallet.deposit(3, &mut out), Ok(()));
    assert_eq!(wallet.withdrawal(4, &mut out), Err("Invalid withdrawal amount".to_string()));
    assert_eq!(wallet.withdrawal(0, &mut out), Ok(()));
    assert_eq!(wallet.balance, 3);
    assert_eq!(
        out.lines(),
        &lines(&[
            "Wallet:: Deposit 10",
            "Wallet:: Withdraw 15",
            "Wallet:: Deposit 3",
            "Wallet:: Withdraw 0",
        ])
    );
}

#[test]
fn wallet_holds_the_largest_amount() {
    let mut out = Transcript::new();
    let mut wallet = Wallet::new(1);
    assert_eq!(wallet.deposit(u64::MAX - 1, &mut out), Ok(()));
    assert_eq!(wallet.balance, u64::MAX);
    assert_eq!(out.line(0), "Wallet:: Deposit 18446744073709551614");
}

#[test]
fn account_and_code_checks() {
    let mut out = Transcript::new();
    let account = Account::new(7, "Kevin".to_string());
    assert_eq!(account.account_id, 7);
    assert_eq!(account.name, "Kevin");
    assert_eq!(account.check(7, &mut out), Ok(()));
    assert_eq!(account.check(8, &mut out), Err("Acocunt ID not matches".to_string()));
    let code = SecurityCode::new(12);
    assert_eq!(code.code, 12);
    assert_eq!(code.check(12, &mut out), Ok(()));
    assert_eq!(code.check(13, &mut out), Err("Invalid code".to_string()));
    assert_eq!(out.lines(), &lines(&["Account ID not matches", "Invalid code!"]));
}

#[test]
fn ledger_and_notifications() {
    let mut out = Transcript::new();
    Ledger.make_entry(10, "deposit".to_string(), 3, &mut out);
    Notification.send_wallet_credit_notification(&mut out);
    Notification.send_wallet_debit_notification(&mut out);
    assert_eq!(
        out.lines(),
        &lines(&[
            "Make ledger entry for account 10 with transaction type deposit amount 3",
            "send wallet credit",
            "Send wallet debit",
        ])
    );
}

#[test]
fn facade_demo_lines() {
    let mut out = Transcript::new();
    assert_eq!(demo_facade(&mut out), Ok(()));
    assert_eq!(
        out.lines(),
        &lines(&[
            "Start add money to wallet",
            "Wallet:: Deposit 10",
            "Send wallet debit",
            "Make ledger entry for account 10 with transaction type deposit amount 0",
            "Start deduct money to wallet",
            "Wallet:: Deposit 10",
            "Send wallet debit",
            "Make ledger entry for account 10 with transaction type deposit amount 1",
        ])
    );
}

#[test]
fn facade_checks_account_then_code() {
    let mut out = Transcript::new();
    let mut facade = WalletFacade::new(1, "Annie".to_string(), 13);
    assert_eq!(facade.wallet_balance(), 0);
    assert_eq!(
        facade.add_money_to_wallet(2, 10, 99, &mut out),
        Err("Acocunt ID not matches".to_string())
    );
    assert_eq!(
        facade.add_money_to_wallet(1, 10, 99, &mut out),
        Err("Invalid code".to_string())
    );
    assert_eq!(facade.wallet_balance(), 0);
    assert_eq!(facade.add_money_to_wallet(1, 10, 13, &mut out), Ok(()));
    assert_eq!(facade.wallet_balance(), 10);
    assert_eq!(
        facade.deduct_money_from_wallet(1, 4, 12, &mut out),
        Err("Invalid code".to_string())
    );
    assert_eq!(facade.deduct_money_from_wallet(1, 4, 13, &mut out), Ok(()));
    assert_eq!(facade.wallet_balance(), 14);
    assert_eq!(
        out.lines(),
        &lines(&[
            "Start add money to wallet",
            "Account ID not matches",
            "Start add money to wallet",
            "Invalid code!",
            "Start add money to wallet",
            "Wallet:: Deposit 10",
            "Send wallet debit",
            "Make ledger entry for account 10 with transaction type deposit amount 1",
            "Start deduct money to wallet",
            "Invalid code!",
            "Start deduct money to wallet",
            "Wallet:: Deposit 4",
            "Send wallet debit",
            "Make ledger entry for account 4 with transaction type deposit amount 1",
        ])
    );
}

#[test]
fn articles_are_kept_by_author() {
    let mut articles = ArticleProvider { articles: HashMap::new() };
    assert!(articles.get(1).is_none());
    articles.new_article(10, 1, "First".to_string(), "One".to_string());
    articles.new_article(11, 1, "Second".to_string(), "Two".to_string());
    articles.new_article(12, 2, "Third".to_string(), "Three".to_string());
    let article = articles.get(1).unwrap();
    assert_eq!(article.id, 11);
    assert_eq!(article.author, 1);
    assert_eq!(article.title, "Second");
    assert_eq!(article.content, "Two");
    assert_eq!(articles.get(2).unwrap().id, 12);
    assert!(articles.get(10).is_none());
    let copy = article.clone();
    assert_eq!((copy.id, copy.author), (11, 1));
    assert_eq!((copy.title.as_str(), copy.content.as_str()), ("Second", "Two"));
}

#[test]
fn users_are_kept_by_number() {
    let mut users = UserProvider { users: HashMap::new() };
    users.new_user(1, "Kevin".to_string(), 20);
    users.new_user(2, "Annie".to_string(), 19);
    users.new_user(1, "Kevin II".to_string(), 21);
    let user = users.get(1).unwrap().clone();
    assert_eq!((user.id, user.name.as_str(), user.age), (1, "Kevin II", 21));
    assert_eq!(users.get(2).unwrap().name, "Annie");
    assert!(users.get(3).is_none());
}

#[test]
fn flyweight_demo_comments() {
    let comments = demo_flyweight();
    assert_eq!(comments.len(), 2);
    assert_eq!(comments[0].content, "comment1");
    assert_eq!(comments[1].content, "comment2");
    for comment in &comments {
        assert_eq!(comment.author.id, 1);
        assert_eq!(comment.author.name, "Kevin");
        assert_eq!(comment.author.age, 20);
        assert_eq!(comment.article.id, 1);
        assert_eq!(comment.article.author, 1);
        assert_eq!(comment.article.title, "Title");
        assert_eq!(comment.article.content, "Content");
    }
}

#[test]
fn proxy_demo_lines() {
    let mut out = Transcript::new();
    demo_proxy(&mut out);
    assert_eq!(
        out.lines(),
        &lines(&[
            "Download content of source nextlint.com",
            "Download content of source google.com",
            "Hit cached nextlint.com => Data { size: 20, content: [1, 2, 3, 4] }",
        ])
    );
}

#[test]
fn file_is_downloaded_each_time() {
    let mut out = Transcript::new();
    let mut file = File { mime_type: "Text".to_string() };
    let data = file.get("a".to_string(), &mut out);
    assert_eq!((data.size, data.content), (20, vec![1, 2, 3, 4]));
    file.get("a".to_string(), &mut out);
    assert_eq!(file.clone().mime_type, "Text");
    assert_eq!(
        out.lines(),
        &lines(&["Download content of source a", "Download content of source a"])
    );
}

#[test]
fn proxy_downloads_each_source_once() {
    let mut out = Transcript::new();
    let mut proxy = DownloadFileProxy::new();
    for source in ["a", "b", "a", "a", "b", ""] {
        let data = proxy.get(source.to_string(), &mut out);
        assert_eq!((data.size, data.content), (20, vec![1, 2, 3, 4]));
    }
    assert_eq!(
        out.lines(),
        &lines(&[
            "Download content of source a",
            "Download content of source b",
            "Hit cached a => Data { size: 20, content: [1, 2, 3, 4] }",
            "Hit cached a => Data { size: 20, content: [1, 2, 3, 4] }",
            "Hit cached b => Data { size: 20, content: [1, 2, 3, 4] }",
            "Download content of source ",
        ])
    );
}

#[test]
fn data_is_shown_with_its_bytes() {
    let mut text = String::new();
    Data { size: 0, content: vec![] }.append_to(&mut text);
    assert_eq!(text, "Data { size: 0, content: [] }");
    let mut text = "x".to_string();
    Data { size: 300, content: vec![255] }.append_to(&mut text);
    assert_eq!(text, "xData { size: 300, content: [255] }");
    let mut text = String::new();
    let data = Data { size: 1, content: vec![0, 10, 200] };
    data.clone().append_to(&mut text);
    assert_eq!(text, "Data { size: 1, content: [0, 10, 200] }");
}
