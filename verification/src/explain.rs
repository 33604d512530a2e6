//! What each well-known command does, in one sentence.
use vstd::prelude::*;

use crate::text::{cat3, owned, str_eq};

verus! {

/// The shell's interpreter of requests. It holds no state of its own.
pub struct Interpreter {}

/// The lower-case form of `s`, as `str::to_lowercase` gives it.
pub uninterp spec fn lowercase(s: Seq<char>) -> Seq<char>;

/// Whether every character of `s` is ASCII.
pub open spec fn is_ascii_text(s: Seq<char>) -> bool {
    forall|i: int| 0 <= i < s.len() ==> (#[trigger] s[i] as u32) < 128
}

/// The lower-case form of an ASCII capital letter; any other character is unchanged.
pub open spec fn ascii_lower_char(c: char) -> char {
    if 'A' <= c && c <= 'Z' {
        ((c as u32) + 32) as char
    } else {
        c
    }
}

/// `s` with each ASCII capital letter made lower case.
pub open spec fn ascii_lower(s: Seq<char>) -> Seq<char> {
    s.map_values(|c: char| ascii_lower_char(c))
}

/// `s` in lower case: calls `str::to_lowercase`. Its result is named, not stated, but
/// for ASCII text, whose Unicode lower-case mapping is the ASCII one, the contract says
/// what it is.
#[verifier::external_body]
fn to_lower(s: &str) -> (r: String)
    ensures
        r@ == lowercase(s@),
        is_ascii_text(s@) ==> r@ == ascii_lower(s@),
{
    s.to_lowercase()
}

/// The explanation of a file operations command, where the table has one.
pub open spec fn files_explanation(cmd: Seq<char>) -> Option<Seq<char>> {
    if cmd == "ls"@ {
        Some("Lists files and directories in the current or specified directory"@)
    } else if cmd == "cat"@ {
        Some("Displays the contents of one or more files to standard output"@)
    } else if cmd == "cd"@ {
        Some("Changes the current working directory"@)
    } else if cmd == "mkdir"@ {
        Some("Creates a new directory"@)
    } else if cmd == "cp"@ {
        Some("Copies files or directories to a destination"@)
    } else if cmd == "mv"@ {
        Some("Moves or renames files and directories"@)
    } else if cmd == "rm"@ {
        Some("Removes files or directories permanently; use with caution as deleted files cannot be easily recovered"@)
    } else if cmd == "touch"@ {
        Some("Creates an empty file or updates the timestamp of an existing file"@)
    } else if cmd == "chmod"@ {
        Some("Changes file or directory permissions; incorrect permissions can lock you out of files or expose them to unauthorized access"@)
    } else if cmd == "chown"@ {
        Some("Changes the owner and/or group of a file or directory; requires appropriate privileges and incorrect usage can break file access"@)
    } else if cmd == "ln"@ {
        Some("Creates hard or symbolic links to files or directories"@)
    } else if cmd == "stat"@ {
        Some("Displays detailed information about a file or filesystem object"@)
    } else if cmd == "file"@ {
        Some("Determines the type of a file by examining its contents"@)
    } else if cmd == "head"@ {
        Some("Displays the first lines of a file (default 10)"@)
    } else if cmd == "tail"@ {
        Some("Displays the last lines of a file (default 10)"@)
    } else if cmd == "less"@ {
        Some("Displays file contents one screen at a time with backward navigation"@)
    } else if cmd == "more"@ {
        Some("Displays file contents one screen at a time"@)
    } else if cmd == "wc"@ {
        Some("Counts lines, words, and bytes in files"@)
    } else if cmd == "sort"@ {
        Some("Sorts lines of text files alphabetically or numerically"@)
    } else if cmd == "uniq"@ {
        Some("Filters out adjacent duplicate lines from sorted input"@)
    } else if cmd == "diff"@ {
        Some("Compares two files line by line and shows differences"@)
    } else if cmd == "patch"@ {
        Some("Applies a diff patch to files"@)
    } else if cmd == "realpath"@ {
        Some("Resolves and prints the absolute path of a file"@)
    } else if cmd == "readlink"@ {
        Some("Prints the target of a symbolic link"@)
    } else if cmd == "basename"@ {
        Some("Strips the directory path and returns only the filename"@)
    } else if cmd == "dirname"@ {
        Some("Strips the filename and returns only the directory path"@)
    } else {
        None
    }
}

fn explain_files(cmd: &str) -> (r: Option<String>)
    ensures
        match r {
            Some(s) => files_explanation(cmd@) == Some(s@),
            None => files_explanation(cmd@) is None,
        },
{
    if str_eq(cmd, "ls") {
        Some(owned("Lists files and directories in the current or specified directory"))
    } else if str_eq(cmd, "cat") {
        Some(owned("Displays the contents of one or more files to standard output"))
    } else if str_eq(cmd, "cd") {
        Some(owned("Changes the current working directory"))
    } else if str_eq(cmd, "mkdir") {
        Some(owned("Creates a new directory"))
    } else if str_eq(cmd, "cp") {
        Some(owned("Copies files or directories to a destination"))
    } else if str_eq(cmd, "mv") {
        Some(owned("Moves or renames files and directories"))
    } else if str_eq(cmd, "rm") {
        Some(owned("Removes files or directories permanently; use with caution as deleted files cannot be easily recovered"))
    } else if str_eq(cmd, "touch") {
        Some(owned("Creates an empty file or updates the timestamp of an existing file"))
    } else if str_eq(cmd, "chmod") {
        Some(owned("Changes file or directory permissions; incorrect permissions can lock you out of files or expose them to unauthorized access"))
    } else if str_eq(cmd, "chown") {
        Some(owned("Changes the owner and/or group of a file or directory; requires appropriate privileges and incorrect usage can break file access"))
    } else if str_eq(cmd, "ln") {
        Some(owned("Creates hard or symbolic links to files or directories"))
    } else if str_eq(cmd, "stat") {
        Some(owned("Displays detailed information about a file or filesystem object"))
    } else if str_eq(cmd, "file") {
        Some(owned("Determines the type of a file by examining its contents"))
    } else if str_eq(cmd, "head") {
        Some(owned("Displays the first lines of a file (default 10)"))
    } else if str_eq(cmd, "tail") {
        Some(owned("Displays the last lines of a file (default 10)"))
    } else if str_eq(cmd, "less") {
        Some(owned("Displays file contents one screen at a time with backward navigation"))
    } else if str_eq(cmd, "more") {
        Some(owned("Displays file contents one screen at a time"))
    } else if str_eq(cmd, "wc") {
        Some(owned("Counts lines, words, and bytes in files"))
    } else if str_eq(cmd, "sort") {
        Some(owned("Sorts lines of text files alphabetically or numerically"))
    } else if str_eq(cmd, "uniq") {
        Some(owned("Filters out adjacent duplicate lines from sorted input"))
    } else if str_eq(cmd, "diff") {
        Some(owned("Compares two files line by line and shows differences"))
    } else if str_eq(cmd, "patch") {
        Some(owned("Applies a diff patch to files"))
    } else if str_eq(cmd, "realpath") {
        Some(owned("Resolves and prints the absolute path of a file"))
    } else if str_eq(cmd, "readlink") {
        Some(owned("Prints the target of a symbolic link"))
    } else if str_eq(cmd, "basename") {
        Some(owned("Strips the directory path and returns only the filename"))
    } else if str_eq(cmd, "dirname") {
        Some(owned("Strips the filename and returns only the directory path"))
    } else {
        None
    }
}

/// The explanation of a search or filter command, where the table has one.
pub open spec fn search_explanation(cmd: Seq<char>) -> Option<Seq<char>> {
    if cmd == "grep"@ {
        Some("Searches for text patterns in files using regular expressions"@)
    } else if cmd == "find"@ {
        Some("Finds files and directories matching specified criteria"@)
    } else if cmd == "locate"@ {
        Some("Quickly finds files by name using a pre-built database"@)
    } else if cmd == "which"@ {
        Some("Shows the full path of a command executable"@)
    } else if cmd == "whereis"@ {
        Some("Locates the binary, source, and manual page for a command"@)
    } else if cmd == "xargs"@ {
        Some("Builds and executes commands from standard input"@)
    } else if cmd == "awk"@ {
        Some("Processes and transforms text using pattern-action rules"@)
    } else if cmd == "sed"@ {
        Some("Performs text transformations on streams or files using substitution rules"@)
    } else if cmd == "cut"@ {
        Some("Extracts specific columns or fields from each line of input"@)
    } else if cmd == "tr"@ {
        Some("Translates, deletes, or squeezes characters from standard input"@)
    } else {
        None
    }
}

fn explain_search(cmd: &str) -> (r: Option<String>)
    ensures
        match r {
            Some(s) => search_explanation(cmd@) == Some(s@),
            None => search_explanation(cmd@) is None,
        },
{
    if str_eq(cmd, "grep") {
        Some(owned("Searches for text patterns in files using regular expressions"))
    } else if str_eq(cmd, "find") {
        Some(owned("Finds files and directories matching specified criteria"))
    } else if str_eq(cmd, "locate") {
        Some(owned("Quickly finds files by name using a pre-built database"))
    } else if str_eq(cmd, "which") {
        Some(owned("Shows the full path of a command executable"))
    } else if str_eq(cmd, "whereis") {
        Some(owned("Locates the binary, source, and manual page for a command"))
    } else if str_eq(cmd, "xargs") {
        Some(owned("Builds and executes commands from standard input"))
    } else if str_eq(cmd, "awk") {
        Some(owned("Processes and transforms text using pattern-action rules"))
    } else if str_eq(cmd, "sed") {
        Some(owned("Performs text transformations on streams or files using substitution rules"))
    } else if str_eq(cmd, "cut") {
        Some(owned("Extracts specific columns or fields from each line of input"))
    } else if str_eq(cmd, "tr") {
        Some(owned("Translates, deletes, or squeezes characters from standard input"))
    } else {
        None
    }
}

/// The explanation of a archive or compression command, where the table has one.
pub open spec fn archives_explanation(cmd: Seq<char>) -> Option<Seq<char>> {
    if cmd == "tar"@ {
        Some("Creates or extracts archive files, optionally with compression"@)
    } else if cmd == "zip"@ {
        Some("Creates compressed zip archives from files and directories"@)
    } else if cmd == "unzip"@ {
        Some("Extracts files from zip archives"@)
    } else if cmd == "gzip"@ {
        Some("Compresses files using the gzip algorithm"@)
    } else if cmd == "gunzip"@ {
        Some("Decompresses gzip-compressed files"@)
    } else if cmd == "bzip2"@ {
        Some("Compresses files using the bzip2 algorithm"@)
    } else if cmd == "xz"@ {
        Some("Compresses files using the xz/LZMA algorithm"@)
    } else if cmd == "zstd"@ {
        Some("Compresses or decompresses files using the Zstandard algorithm"@)
    } else {
        None
    }
}

fn explain_archives(cmd: &str) -> (r: Option<String>)
    ensures
        match r {
            Some(s) => archives_explanation(cmd@) == Some(s@),
            None => archives_explanation(cmd@) is None,
        },
{
    if str_eq(cmd, "tar") {
        Some(owned("Creates or extracts archive files, optionally with compression"))
    } else if str_eq(cmd, "zip") {
        Some(owned("Creates compressed zip archives from files and directories"))
    } else if str_eq(cmd, "unzip") {
        Some(owned("Extracts files from zip archives"))
    } else if str_eq(cmd, "gzip") {
        Some(owned("Compresses files using the gzip algorithm"))
    } else if str_eq(cmd, "gunzip") {
        Some(owned("Decompresses gzip-compressed files"))
    } else if str_eq(cmd, "bzip2") {
        Some(owned("Compresses files using the bzip2 algorithm"))
    } else if str_eq(cmd, "xz") {
        Some(owned("Compresses files using the xz/LZMA algorithm"))
    } else if str_eq(cmd, "zstd") {
        Some(owned("Compresses or decompresses files using the Zstandard algorithm"))
    } else {
        None
    }
}

/// The explanation of a process management command, where the table has one.
pub open spec fn processes_explanation(cmd: Seq<char>) -> Option<Seq<char>> {
    if cmd == "ps"@ {
        Some("Lists currently running processes"@)
    } else if cmd == "top"@ {
        Some("Displays real-time system resource usage and running processes"@)
    } else if cmd == "htop"@ {
        Some("Displays an interactive, color-coded view of running processes and system resources"@)
    } else if cmd == "kill"@ {
        Some("Sends a signal to a process, typically to terminate it; ensure you target the correct PID to avoid stopping critical processes"@)
    } else if cmd == "killall"@ {
        Some("Sends a signal to all processes matching a name; use carefully as it affects every matching process"@)
    } else if cmd == "pkill"@ {
        Some("Sends a signal to processes matching a pattern; use carefully as it can match more processes than intended"@)
    } else if cmd == "nice"@ {
        Some("Runs a command with a modified scheduling priority"@)
    } else if cmd == "renice"@ {
        Some("Changes the scheduling priority of a running process"@)
    } else if cmd == "nohup"@ {
        Some("Runs a command that persists after the terminal session ends"@)
    } else if cmd == "bg"@ {
        Some("Resumes a suspended job in the background"@)
    } else if cmd == "fg"@ {
        Some("Brings a background job to the foreground"@)
    } else if cmd == "jobs"@ {
        Some("Lists active jobs in the current shell session"@)
    } else if cmd == "wait"@ {
        Some("Waits for background processes to finish before continuing"@)
    } else {
        None
    }
}

fn explain_processes(cmd: &str) -> (r: Option<String>)
    ensures
        match r {
            Some(s) => processes_explanation(cmd@) == Some(s@),
            None => processes_explanation(cmd@) is None,
        },
{
    if str_eq(cmd, "ps") {
        Some(owned("Lists currently running processes"))
    } else if str_eq(cmd, "top") {
        Some(owned("Displays real-time system resource usage and running processes"))
    } else if str_eq(cmd, "htop") {
        Some(owned("Displays an interactive, color-coded view of running processes and system resources"))
    } else if str_eq(cmd, "kill") {
        Some(owned("Sends a signal to a process, typically to terminate it; ensure you target the correct PID to avoid stopping critical processes"))
    } else if str_eq(cmd, "killall") {
        Some(owned("Sends a signal to all processes matching a name; use carefully as it affects every matching process"))
    } else if str_eq(cmd, "pkill") {
        Some(owned("Sends a signal to processes matching a pattern; use carefully as it can match more processes than intended"))
    } else if str_eq(cmd, "nice") {
        Some(owned("Runs a command with a modified scheduling priority"))
    } else if str_eq(cmd, "renice") {
        Some(owned("Changes the scheduling priority of a running process"))
    } else if str_eq(cmd, "nohup") {
        Some(owned("Runs a command that persists after the terminal session ends"))
    } else if str_eq(cmd, "bg") {
        Some(owned("Resumes a suspended job in the background"))
    } else if str_eq(cmd, "fg") {
        Some(owned("Brings a background job to the foreground"))
    } else if str_eq(cmd, "jobs") {
        Some(owned("Lists active jobs in the current shell session"))
    } else if str_eq(cmd, "wait") {
        Some(owned("Waits for background processes to finish before continuing"))
    } else {
        None
    }
}

/// The explanation of a system info command, where the table has one.
pub open spec fn system_explanation(cmd: Seq<char>) -> Option<Seq<char>> {
    if cmd == "df"@ {
        Some("Shows disk space usage for mounted filesystems"@)
    } else if cmd == "du"@ {
        Some("Shows disk space usage for files and directories"@)
    } else if cmd == "free"@ {
        Some("Displays the amount of free and used memory in the system"@)
    } else if cmd == "uname"@ {
        Some("Prints system information such as kernel name and version"@)
    } else if cmd == "uptime"@ {
        Some("Shows how long the system has been running and the load average"@)
    } else if cmd == "hostname"@ {
        Some("Displays or sets the system hostname"@)
    } else if cmd == "lsb_release"@ {
        Some("Displays Linux distribution information"@)
    } else if cmd == "lscpu"@ {
        Some("Displays detailed CPU architecture information"@)
    } else if cmd == "lsblk"@ {
        Some("Lists information about block devices such as disks and partitions"@)
    } else if cmd == "lsusb"@ {
        Some("Lists USB devices connected to the system"@)
    } else if cmd == "lspci"@ {
        Some("Lists PCI devices connected to the system"@)
    } else if cmd == "dmesg"@ {
        Some("Displays kernel ring buffer messages, useful for hardware and driver diagnostics"@)
    } else if cmd == "mount"@ {
        Some("Mounts a filesystem or displays currently mounted filesystems"@)
    } else if cmd == "umount"@ {
        Some("Unmounts a mounted filesystem"@)
    } else {
        None
    }
}

fn explain_system(cmd: &str) -> (r: Option<String>)
    ensures
        match r {
            Some(s) => system_explanation(cmd@) == Some(s@),
            None => system_explanation(cmd@) is None,
        },
{
    if str_eq(cmd, "df") {
        Some(owned("Shows disk space usage for mounted filesystems"))
    } else if str_eq(cmd, "du") {
        Some(owned("Shows disk space usage for files and directories"))
    } else if str_eq(cmd, "free") {
        Some(owned("Displays the amount of free and used memory in the system"))
    } else if str_eq(cmd, "uname") {
        Some(owned("Prints system information such as kernel name and version"))
    } else if str_eq(cmd, "uptime") {
        Some(owned("Shows how long the system has been running and the load average"))
    } else if str_eq(cmd, "hostname") {
        Some(owned("Displays or sets the system hostname"))
    } else if str_eq(cmd, "lsb_release") {
        Some(owned("Displays Linux distribution information"))
    } else if str_eq(cmd, "lscpu") {
        Some(owned("Displays detailed CPU architecture information"))
    } else if str_eq(cmd, "lsblk") {
        Some(owned("Lists information about block devices such as disks and partitions"))
    } else if str_eq(cmd, "lsusb") {
        Some(owned("Lists USB devices connected to the system"))
    } else if str_eq(cmd, "lspci") {
        Some(owned("Lists PCI devices connected to the system"))
    } else if str_eq(cmd, "dmesg") {
        Some(owned("Displays kernel ring buffer messages, useful for hardware and driver diagnostics"))
    } else if str_eq(cmd, "mount") {
        Some(owned("Mounts a filesystem or displays currently mounted filesystems"))
    } else if str_eq(cmd, "umount") {
        Some(owned("Unmounts a mounted filesystem"))
    } else {
        None
    }
}

/// The explanation of a network command, where the table has one.
pub open spec fn network_explanation(cmd: Seq<char>) -> Option<Seq<char>> {
    if cmd == "ping"@ {
        Some("Sends ICMP echo requests to test network connectivity to a host"@)
    } else if cmd == "curl"@ {
        Some("Transfers data from or to a server using various protocols"@)
    } else if cmd == "wget"@ {
        Some("Downloads files from the web via HTTP, HTTPS, or FTP"@)
    } else if cmd == "ssh"@ {
        Some("Opens a secure shell connection to a remote host"@)
    } else if cmd == "scp"@ {
        Some("Copies files securely between hosts over SSH"@)
    } else if cmd == "rsync"@ {
        Some("Synchronizes files and directories between locations efficiently"@)
    } else if cmd == "ip"@ {
        Some("Configures and displays network interfaces, routes, and addresses"@)
    } else if cmd == "ifconfig"@ {
        Some("Displays or configures network interface parameters"@)
    } else if cmd == "netstat"@ {
        Some("Displays network connections, routing tables, and interface statistics"@)
    } else if cmd == "ss"@ {
        Some("Displays socket statistics and network connections"@)
    } else if cmd == "dig"@ {
        Some("Performs DNS lookups and displays detailed query results"@)
    } else if cmd == "nslookup"@ {
        Some("Queries DNS servers to resolve hostnames to IP addresses"@)
    } else if cmd == "traceroute"@ {
        Some("Traces the network path packets take to reach a destination host"@)
    } else if cmd == "nc"@ {
        Some("Reads and writes data across network connections (netcat)"@)
    } else {
        None
    }
}

fn explain_network(cmd: &str) -> (r: Option<String>)
    ensures
        match r {
            Some(s) => network_explanation(cmd@) == Some(s@),
            None => network_explanation(cmd@) is None,
        },
{
    if str_eq(cmd, "ping") {
        Some(owned("Sends ICMP echo requests to test network connectivity to a host"))
    } else if str_eq(cmd, "curl") {
        Some(owned("Transfers data from or to a server using various protocols"))
    } else if str_eq(cmd, "wget") {
        Some(owned("Downloads files from the web via HTTP, HTTPS, or FTP"))
    } else if str_eq(cmd, "ssh") {
        Some(owned("Opens a secure shell connection to a remote host"))
    } else if str_eq(cmd, "scp") {
        Some(owned("Copies files securely between hosts over SSH"))
    } else if str_eq(cmd, "rsync") {
        Some(owned("Synchronizes files and directories between locations efficiently"))
    } else if str_eq(cmd, "ip") {
        Some(owned("Configures and displays network interfaces, routes, and addresses"))
    } else if str_eq(cmd, "ifconfig") {
        Some(owned("Displays or configures network interface parameters"))
    } else if str_eq(cmd, "netstat") {
        Some(owned("Displays network connections, routing tables, and interface statistics"))
    } else if str_eq(cmd, "ss") {
        Some(owned("Displays socket statistics and network connections"))
    } else if str_eq(cmd, "dig") {
        Some(owned("Performs DNS lookups and displays detailed query results"))
    } else if str_eq(cmd, "nslookup") {
        Some(owned("Queries DNS servers to resolve hostnames to IP addresses"))
    } else if str_eq(cmd, "traceroute") {
        Some(owned("Traces the network path packets take to reach a destination host"))
    } else if str_eq(cmd, "nc") {
        Some(owned("Reads and writes data across network connections (netcat)"))
    } else {
        None
    }
}

/// The explanation of a user or permission command, where the table has one.
pub open spec fn users_explanation(cmd: Seq<char>) -> Option<Seq<char>> {
    if cmd == "sudo"@ {
        Some("Executes a command with superuser (root) privileges; be careful as root access can modify or destroy any file on the system"@)
    } else if cmd == "su"@ {
        Some("Switches the current user to another user account"@)
    } else if cmd == "whoami"@ {
        Some("Prints the current effective username"@)
    } else if cmd == "id"@ {
        Some("Displays the current user's UID, GID, and group memberships"@)
    } else if cmd == "groups"@ {
        Some("Displays the groups a user belongs to"@)
    } else if cmd == "passwd"@ {
        Some("Changes a user's password"@)
    } else if cmd == "useradd"@ {
        Some("Creates a new user account on the system"@)
    } else if cmd == "userdel"@ {
        Some("Deletes a user account from the system"@)
    } else if cmd == "usermod"@ {
        Some("Modifies an existing user account's properties"@)
    } else if cmd == "groupadd"@ {
        Some("Creates a new group on the system"@)
    } else {
        None
    }
}

fn explain_users(cmd: &str) -> (r: Option<String>)
    ensures
        match r {
            Some(s) => users_explanation(cmd@) == Some(s@),
            None => users_explanation(cmd@) is None,
        },
{
    if str_eq(cmd, "sudo") {
        Some(owned("Executes a command with superuser (root) privileges; be careful as root access can modify or destroy any file on the system"))
    } else if str_eq(cmd, "su") {
        Some(owned("Switches the current user to another user account"))
    } else if str_eq(cmd, "whoami") {
        Some(owned("Prints the current effective username"))
    } else if str_eq(cmd, "id") {
        Some(owned("Displays the current user's UID, GID, and group memberships"))
    } else if str_eq(cmd, "groups") {
        Some(owned("Displays the groups a user belongs to"))
    } else if str_eq(cmd, "passwd") {
        Some(owned("Changes a user's password"))
    } else if str_eq(cmd, "useradd") {
        Some(owned("Creates a new user account on the system"))
    } else if str_eq(cmd, "userdel") {
        Some(owned("Deletes a user account from the system"))
    } else if str_eq(cmd, "usermod") {
        Some(owned("Modifies an existing user account's properties"))
    } else if str_eq(cmd, "groupadd") {
        Some(owned("Creates a new group on the system"))
    } else {
        None
    }
}

/// The explanation of a package management command, where the table has one.
pub open spec fn packages_explanation(cmd: Seq<char>) -> Option<Seq<char>> {
    if cmd == "apt"@ {
        Some("Manages packages on Debian-based systems (install, remove, update)"@)
    } else if cmd == "apt-get"@ {
        Some("Manages packages on Debian-based systems (lower-level interface)"@)
    } else if cmd == "dpkg"@ {
        Some("Installs, removes, and inspects individual .deb packages"@)
    } else if cmd == "ark"@ {
        Some("Manages packages using the Ark package manager"@)
    } else if cmd == "pip"@ {
        Some("Installs and manages Python packages from PyPI"@)
    } else if cmd == "cargo"@ {
        Some("Builds, tests, and manages Rust projects and dependencies"@)
    } else if cmd == "npm"@ {
        Some("Installs and manages Node.js packages from the npm registry"@)
    } else {
        None
    }
}

fn explain_packages(cmd: &str) -> (r: Option<String>)
    ensures
        match r {
            Some(s) => packages_explanation(cmd@) == Some(s@),
            None => packages_explanation(cmd@) is None,
        },
{
    if str_eq(cmd, "apt") {
        Some(owned("Manages packages on Debian-based systems (install, remove, update)"))
    } else if str_eq(cmd, "apt-get") {
        Some(owned("Manages packages on Debian-based systems (lower-level interface)"))
    } else if str_eq(cmd, "dpkg") {
        Some(owned("Installs, removes, and inspects individual .deb packages"))
    } else if str_eq(cmd, "ark") {
        Some(owned("Manages packages using the Ark package manager"))
    } else if str_eq(cmd, "pip") {
        Some(owned("Installs and manages Python packages from PyPI"))
    } else if str_eq(cmd, "cargo") {
        Some(owned("Builds, tests, and manages Rust projects and dependencies"))
    } else if str_eq(cmd, "npm") {
        Some(owned("Installs and manages Node.js packages from the npm registry"))
    } else {
        None
    }
}

/// The explanation of a service or system command, where the table has one.
pub open spec fn services_explanation(cmd: Seq<char>) -> Option<Seq<char>> {
    if cmd == "systemctl"@ {
        Some("Controls and inspects systemd services and units"@)
    } else if cmd == "journalctl"@ {
        Some("Views and queries systemd journal logs"@)
    } else if cmd == "crontab"@ {
        Some("Schedules commands to run automatically at specified times"@)
    } else if cmd == "at"@ {
        Some("Schedules a one-time command to run at a specified time"@)
    } else if cmd == "reboot"@ {
        Some("Restarts the system immediately; ensure all work is saved before running"@)
    } else if cmd == "shutdown"@ {
        Some("Shuts down or schedules a shutdown of the system; ensure all work is saved before running"@)
    } else if cmd == "poweroff"@ {
        Some("Powers off the system immediately; ensure all work is saved before running"@)
    } else if cmd == "loginctl"@ {
        Some("Controls and inspects the systemd login manager and user sessions"@)
    } else {
        None
    }
}

fn explain_services(cmd: &str) -> (r: Option<String>)
    ensures
        match r {
            Some(s) => services_explanation(cmd@) == Some(s@),
            None => services_explanation(cmd@) is None,
        },
{
    if str_eq(cmd, "systemctl") {
        Some(owned("Controls and inspects systemd services and units"))
    } else if str_eq(cmd, "journalctl") {
        Some(owned("Views and queries systemd journal logs"))
    } else if str_eq(cmd, "crontab") {
        Some(owned("Schedules commands to run automatically at specified times"))
    } else if str_eq(cmd, "at") {
        Some(owned("Schedules a one-time command to run at a specified time"))
    } else if str_eq(cmd, "reboot") {
        Some(owned("Restarts the system immediately; ensure all work is saved before running"))
    } else if str_eq(cmd, "shutdown") {
        Some(owned("Shuts down or schedules a shutdown of the system; ensure all work is saved before running"))
    } else if str_eq(cmd, "poweroff") {
        Some(owned("Powers off the system immediately; ensure all work is saved before running"))
    } else if str_eq(cmd, "loginctl") {
        Some(owned("Controls and inspects the systemd login manager and user sessions"))
    } else {
        None
    }
}

/// The explanation of a development command, where the table has one.
pub open spec fn development_explanation(cmd: Seq<char>) -> Option<Seq<char>> {
    if cmd == "git"@ {
        Some("Manages source code version control repositories"@)
    } else if cmd == "make"@ {
        Some("Builds projects by executing rules defined in a Makefile"@)
    } else if cmd == "gcc"@ {
        Some("Compiles C and C++ source code into executables"@)
    } else if cmd == "python"@ {
        Some("Runs Python scripts or starts an interactive Python interpreter"@)
    } else if cmd == "python3"@ {
        Some("Runs Python 3 scripts or starts an interactive Python 3 interpreter"@)
    } else if cmd == "node"@ {
        Some("Runs JavaScript code or starts an interactive Node.js REPL"@)
    } else if cmd == "rustc"@ {
        Some("Compiles Rust source code into executables"@)
    } else if cmd == "docker"@ {
        Some("Manages containers, images, and container-based applications"@)
    } else if cmd == "kubectl"@ {
        Some("Controls and manages Kubernetes clusters and workloads"@)
    } else {
        None
    }
}

fn explain_development(cmd: &str) -> (r: Option<String>)
    ensures
        match r {
            Some(s) => development_explanation(cmd@) == Some(s@),
            None => development_explanation(cmd@) is None,
        },
{
    if str_eq(cmd, "git") {
        Some(owned("Manages source code version control repositories"))
    } else if str_eq(cmd, "make") {
        Some(owned("Builds projects by executing rules defined in a Makefile"))
    } else if str_eq(cmd, "gcc") {
        Some(owned("Compiles C and C++ source code into executables"))
    } else if str_eq(cmd, "python") {
        Some(owned("Runs Python scripts or starts an interactive Python interpreter"))
    } else if str_eq(cmd, "python3") {
        Some(owned("Runs Python 3 scripts or starts an interactive Python 3 interpreter"))
    } else if str_eq(cmd, "node") {
        Some(owned("Runs JavaScript code or starts an interactive Node.js REPL"))
    } else if str_eq(cmd, "rustc") {
        Some(owned("Compiles Rust source code into executables"))
    } else if str_eq(cmd, "docker") {
        Some(owned("Manages containers, images, and container-based applications"))
    } else if str_eq(cmd, "kubectl") {
        Some(owned("Controls and manages Kubernetes clusters and workloads"))
    } else {
        None
    }
}

/// The explanation of a misc command, where the table has one.
pub open spec fn misc_explanation(cmd: Seq<char>) -> Option<Seq<char>> {
    if cmd == "echo"@ {
        Some("Prints text or variable values to standard output"@)
    } else if cmd == "env"@ {
        Some("Displays or modifies the current environment variables"@)
    } else if cmd == "export"@ {
        Some("Sets an environment variable available to child processes"@)
    } else if cmd == "source"@ {
        Some("Executes commands from a file in the current shell environment"@)
    } else if cmd == "alias"@ {
        Some("Creates a shortcut name for a command or command sequence"@)
    } else if cmd == "history"@ {
        Some("Displays the list of previously executed commands"@)
    } else if cmd == "clear"@ {
        Some("Clears the terminal screen"@)
    } else if cmd == "date"@ {
        Some("Displays or sets the current date and time"@)
    } else if cmd == "cal"@ {
        Some("Displays a calendar for the current or specified month"@)
    } else if cmd == "man"@ {
        Some("Displays the manual page for a command"@)
    } else if cmd == "help"@ {
        Some("Displays help information for shell built-in commands"@)
    } else if cmd == "type"@ {
        Some("Indicates how a command name would be interpreted by the shell"@)
    } else if cmd == "tee"@ {
        Some("Reads from standard input and writes to both standard output and files"@)
    } else if cmd == "xclip"@ {
        Some("Copies or pastes text to and from the X11 clipboard"@)
    } else {
        None
    }
}

fn explain_misc(cmd: &str) -> (r: Option<String>)
    ensures
        match r {
            Some(s) => misc_explanation(cmd@) == Some(s@),
            None => misc_explanation(cmd@) is None,
        },
{
    if str_eq(cmd, "echo") {
        Some(owned("Prints text or variable values to standard output"))
    } else if str_eq(cmd, "env") {
        Some(owned("Displays or modifies the current environment variables"))
    } else if str_eq(cmd, "export") {
        Some(owned("Sets an environment variable available to child processes"))
    } else if str_eq(cmd, "source") {
        Some(owned("Executes commands from a file in the current shell environment"))
    } else if str_eq(cmd, "alias") {
        Some(owned("Creates a shortcut name for a command or command sequence"))
    } else if str_eq(cmd, "history") {
        Some(owned("Displays the list of previously executed commands"))
    } else if str_eq(cmd, "clear") {
        Some(owned("Clears the terminal screen"))
    } else if str_eq(cmd, "date") {
        Some(owned("Displays or sets the current date and time"))
    } else if str_eq(cmd, "cal") {
        Some(owned("Displays a calendar for the current or specified month"))
    } else if str_eq(cmd, "man") {
        Some(owned("Displays the manual page for a command"))
    } else if str_eq(cmd, "help") {
        Some(owned("Displays help information for shell built-in commands"))
    } else if str_eq(cmd, "type") {
        Some(owned("Indicates how a command name would be interpreted by the shell"))
    } else if str_eq(cmd, "tee") {
        Some(owned("Reads from standard input and writes to both standard output and files"))
    } else if str_eq(cmd, "xclip") {
        Some(owned("Copies or pastes text to and from the X11 clipboard"))
    } else {
        None
    }
}

/// The explanation of a command, where the table has one.
pub open spec fn explanation_of(cmd: Seq<char>) -> Option<Seq<char>> {
    if files_explanation(cmd) is Some {
        files_explanation(cmd)
    } else if search_explanation(cmd) is Some {
        search_explanation(cmd)
    } else if archives_explanation(cmd) is Some {
        archives_explanation(cmd)
    } else if processes_explanation(cmd) is Some {
        processes_explanation(cmd)
    } else if system_explanation(cmd) is Some {
        system_explanation(cmd)
    } else if network_explanation(cmd) is Some {
        network_explanation(cmd)
    } else if users_explanation(cmd) is Some {
        users_explanation(cmd)
    } else if packages_explanation(cmd) is Some {
        packages_explanation(cmd)
    } else if services_explanation(cmd) is Some {
        services_explanation(cmd)
    } else if development_explanation(cmd) is Some {
        development_explanation(cmd)
    } else if misc_explanation(cmd) is Some {
        misc_explanation(cmd)
    } else {
        None
    }
}

/// The sentence for a lower-case command: the table's, or a generic one that names it.
pub open spec fn explain_for(cmd: Seq<char>) -> Seq<char> {
    match explanation_of(cmd) {
        Some(e) => e,
        None => "Executes the "@ + cmd + " command"@,
    }
}

/// What `explain` says of `command`: the sentence for its lower-case form.
pub open spec fn explain_spec(command: Seq<char>) -> Seq<char> {
    explain_for(lowercase(command))
}

impl Interpreter {
    /// An interpreter.
    pub fn new() -> (i: Interpreter) {
        Interpreter {}
    }

    /// A sentence that says what `command` does; the case of its letters does not matter.
    pub fn explain(&self, command: &str, _args: &[String]) -> (r: String)
        ensures
            r@ == explain_spec(command@),
            is_ascii_text(command@) ==> r@ == explain_for(ascii_lower(command@)),
    {
        let cmd = to_lower(command);
        explain_lowered(cmd.as_str())
    }
}

/// The sentence for a command already in lower case.
pub fn explain_lowered(c: &str) -> (r: String)
    ensures
        r@ == explain_for(c@),
{
    if let Some(e) = explain_files(c) {
        return e;
    }
    if let Some(e) = explain_search(c) {
        return e;
    }
    if let Some(e) = explain_archives(c) {
        return e;
    }
    if let Some(e) = explain_processes(c) {
        return e;
    }
    if let Some(e) = explain_system(c) {
        return e;
    }
    if let Some(e) = explain_network(c) {
        return e;
    }
    if let Some(e) = explain_users(c) {
        return e;
    }
    if let Some(e) = explain_packages(c) {
        return e;
    }
    if let Some(e) = explain_services(c) {
        return e;
    }
    if let Some(e) = explain_development(c) {
        return e;
    }
    if let Some(e) = explain_misc(c) {
        return e;
    }
    cat3("Executes the ", c, " command")
}

/// Explanations ignore the case of ASCII letters: two ASCII commands that differ only
/// in the case of their letters get the same sentence.
pub proof fn law_explain_ignores_case(a: Seq<char>, b: Seq<char>)
    requires
        is_ascii_text(a),
        is_ascii_text(b),
        a.len() == b.len(),
        forall|i: int| 0 <= i < a.len() ==> ascii_lower_char(#[trigger] a[i]) == ascii_lower_char(b[i]),
    ensures
        explain_for(ascii_lower(a)) == explain_for(ascii_lower(b)),
{
    assert(ascii_lower(a) =~= ascii_lower(b));
}

/// Explaining the lower-case form of an ASCII command gives the sentence for the command
/// itself: that form is ASCII again, and lower-casing it changes nothing more.
pub proof fn law_explain_of_lower_case(c: Seq<char>)
    requires
        is_ascii_text(c),
    ensures
        is_ascii_text(ascii_lower(c)),
        ascii_lower(ascii_lower(c)) == ascii_lower(c),
        explain_for(ascii_lower(ascii_lower(c))) == explain_for(ascii_lower(c)),
{
    assert forall|i: int| 0 <= i < c.len() implies (#[trigger] ascii_lower(c)[i] as u32) < 128
        && ascii_lower_char(ascii_lower(c)[i]) == ascii_lower(c)[i] by {
        let x = c[i];
        if 'A' <= x && x <= 'Z' {
            assert(65 <= (x as u32) <= 90);
            assert((((x as u32) + 32) as char) as u32 == (x as u32) + 32);
        }
    }
    assert(ascii_lower(ascii_lower(c)) =~= ascii_lower(c));
}

} // verus!
