use print_core::dispatch::{
    get_printers, last_word, list_command, list_failed, list_not_started, parse_printers,
    print_command, print_not_started, print_outcome, Command, Exit, Platform, NO_DEFAULT_PRINTER,
};
use print_core::models::{PrintResult, PrinterInfo};

fn command(program: &str, args: &[&str]) -> Command {
    Command { program: program.to_string(), args: args.iter().map(|a| a.to_string()).collect() }
}

fn exit(success: bool, stdout: &str, stderr: &str) -> Exit {
    Exit { success, stdout: stdout.to_string(), stderr: stderr.to_string() }
}

#[test]
fn printers_are_listed_by_the_command_of_the_platform() {
    assert_eq!(list_command(Platform::Linux), command("lpstat", &["-p", "-d"]));
    assert_eq!(list_command(Platform::MacOs), command("lpstat", &["-p", "-d"]));
    assert_eq!(
        list_command(Platform::Windows),
        command("powershell", &["-Command", "Get-Printer | Select-Object Name, Default | ConvertTo-Json"])
    );
}

#[test]
fn files_are_printed_by_the_command_of_the_platform() {
    assert_eq!(
        print_command(Platform::Linux, "Canon_G3000", "/tmp/print-1.pdf"),
        command("lp", &["-d", "Canon_G3000", "-o", "fit-to-page", "/tmp/print-1.pdf"])
    );
    assert_eq!(
        print_command(Platform::MacOs, "Canon_G3000", "/tmp/print-1.pdf"),
        command("lpr", &["-P", "Canon_G3000", "/tmp/print-1.pdf"])
    );
    assert_eq!(
        print_command(Platform::Windows, "HP LaserJet", "C:\\Temp\\print-1.pdf"),
        command(
            "powershell",
            &["-Command", "Start-Process -FilePath 'C:\\Temp\\print-1.pdf' -Verb Print -ArgumentList '/d:\"HP LaserJet\"'"]
        )
    );
}

#[test]
fn a_failing_print_command_gives_a_result_without_success() {
    for platform in [Platform::Linux, Platform::Windows, Platform::MacOs] {
        let result = print_outcome(platform, "Canon", false, "request id is Canon-7 (1 file(s))", "lp: no such printer\n");
        assert_eq!(
            result,
            PrintResult {
                success: false,
                message: "Failed to send to printer: lp: no such printer\n".to_string(),
                job_id: None
            }
        );
        let silent = print_outcome(platform, "Canon", false, "", "");
        assert!(!silent.success);
        assert!(!silent.message.is_empty());
        assert_eq!(silent.job_id, None);
    }
}

#[test]
fn a_print_command_that_succeeds_names_the_printer() {
    let linux = print_outcome(Platform::Linux, "Canon", true, "request id is Canon-7 (1 file(s))\n", "");
    assert_eq!(
        linux,
        PrintResult {
            success: true,
            message: "Document sent to printer: Canon".to_string(),
            job_id: Some("file(s))".to_string())
        }
    );
    assert_eq!(print_outcome(Platform::Linux, "Canon", true, "Canon-7\n", "warn").job_id, Some("Canon-7".to_string()));
    assert_eq!(print_outcome(Platform::Linux, "Canon", true, " \n", "").job_id, None);
    let windows = print_outcome(Platform::Windows, "HP", true, "whatever", "");
    assert_eq!(
        windows,
        PrintResult {
            success: true,
            message: "Document sent to printer: HP".to_string(),
            job_id: Some("windows-print-job".to_string())
        }
    );
    let mac = print_outcome(Platform::MacOs, "HP", true, "job 12", "");
    assert_eq!(
        mac,
        PrintResult { success: true, message: "Document sent to printer: HP".to_string(), job_id: None }
    );
}

#[test]
fn the_last_word_is_the_last_run_without_white_space() {
    assert_eq!(last_word("request id is Canon-7"), Some("Canon-7".to_string()));
    assert_eq!(last_word("  one  "), Some("one".to_string()));
    assert_eq!(last_word(""), None);
    assert_eq!(last_word(" \t\r\n"), None);
}

#[test]
fn commands_that_cannot_be_started_have_their_errors() {
    assert_eq!(
        list_not_started(Platform::Linux, "No such file or directory (os error 2)"),
        "Error executing lpstat: No such file or directory (os error 2). Check if CUPS is installed."
    );
    assert_eq!(list_not_started(Platform::MacOs, "gone"), "Error executing lpstat: gone");
    assert_eq!(list_not_started(Platform::Windows, "gone"), "Error executing PowerShell: gone");
    assert_eq!(print_not_started(Platform::Linux, "gone"), "Error executing lp: gone");
    assert_eq!(print_not_started(Platform::MacOs, "gone"), "Error executing lpr: gone");
    assert_eq!(print_not_started(Platform::Windows, "gone"), "Error executing PowerShell: gone");
    assert_eq!(list_failed(Platform::Linux, "scheduler down"), "lpstat failed: scheduler down");
    assert_eq!(list_failed(Platform::MacOs, "scheduler down"), "lpstat failed: scheduler down");
    assert_eq!(list_failed(Platform::Windows, "denied"), "PowerShell failed: denied");
    assert_eq!(NO_DEFAULT_PRINTER, "No default printer found");
}

#[test]
fn the_printer_list_comes_from_a_run_of_the_listing_command() {
    let out = "printer A_1 is idle.\nprinter B_2 is idle.\nsystem default destination: B_2\n";
    let listed = get_printers(Platform::Linux, &Ok(exit(true, out, "")));
    assert_eq!(
        listed,
        Ok(vec![
            PrinterInfo { id: "A_1".to_string(), display_name: "A 1".to_string(), is_default: false },
            PrinterInfo { id: "B_2".to_string(), display_name: "B 2".to_string(), is_default: true },
        ])
    );
    assert_eq!(get_printers(Platform::MacOs, &Ok(exit(true, out, ""))), listed);
    assert_eq!(get_printers(Platform::Linux, &Ok(exit(true, "", "ignored"))), Ok(Vec::new()));
    let json = "[\n  {\n    \"Name\":  \"PDF\",\n    \"Default\":  null\n  }\n]\n";
    assert_eq!(
        get_printers(Platform::Windows, &Ok(exit(true, json, ""))),
        Ok(vec![PrinterInfo { id: "PDF".to_string(), display_name: "PDF".to_string(), is_default: true }])
    );
    let json = "{\n    \"Name\":  \"HP_LaserJet\",\n    \"Default\":  false\n}\n";
    assert_eq!(
        get_printers(Platform::Windows, &Ok(exit(true, json, ""))),
        Ok(vec![PrinterInfo {
            id: "HP_LaserJet".to_string(),
            display_name: "HP LaserJet".to_string(),
            is_default: true
        }])
    );
    let colons = "printer x is idle.\nprinter a is idle.\nsystem default destination:a:b\n";
    assert_eq!(
        get_printers(Platform::Linux, &Ok(exit(true, colons, ""))),
        Ok(vec![
            PrinterInfo { id: "x".to_string(), display_name: "x".to_string(), is_default: true },
            PrinterInfo { id: "a".to_string(), display_name: "a".to_string(), is_default: false },
        ])
    );
    assert_eq!(parse_printers(Platform::Windows, out), Vec::new());
}

#[test]
fn a_listing_that_fails_is_an_error() {
    assert_eq!(
        get_printers(Platform::Linux, &Ok(exit(false, "printer A x\n", "lpstat: Bad file descriptor\n"))),
        Err("lpstat failed: lpstat: Bad file descriptor\n".to_string())
    );
    assert_eq!(
        get_printers(Platform::Windows, &Ok(exit(false, "", "denied"))),
        Err("PowerShell failed: denied".to_string())
    );
    assert_eq!(
        get_printers(Platform::Linux, &Err("not found".to_string())),
        Err("Error executing lpstat: not found. Check if CUPS is installed.".to_string())
    );
    assert_eq!(
        get_printers(Platform::MacOs, &Err("not found".to_string())),
        Err("Error executing lpstat: not found".to_string())
    );
    assert_eq!(
        get_printers(Platform::Windows, &Err("not found".to_string())),
        Err("Error executing PowerShell: not found".to_string())
    );
}
