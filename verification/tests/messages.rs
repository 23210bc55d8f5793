//! Every error is shown with the text that belongs to its kind.

use windows_launcher::cli::CliError;
use windows_launcher::dbus_manager::DBusError;
use windows_launcher::dbus_server::DBusError as ServiceError;
use windows_launcher::launcher::{LauncherError, LauncherErrorKind};
use windows_launcher::servant::ServantError;
use windows_launcher::session::SessionError;
use windows_launcher::system_setup::{GpuSetupError, SetupError};
use windows_launcher::virtual_mouse::MouseError;

#[test]
fn every_cli_error_has_its_message() {
    assert_eq!(
        CliError::FailedToConnectToSystemBus(String::from("alpha")).to_string(),
        "Could not connect to the system dbus: alpha"
    );
    assert_eq!(
        CliError::FailedToStartUserService(String::from("alpha")).to_string(),
        "DBus session call to start the user windows-launcher.service failed: alpha"
    );
    assert_eq!(
        CliError::FailedToQueryState(String::from("alpha")).to_string(),
        "Failed to query the system server for the vm state: alpha"
    );
    assert_eq!(
        CliError::FailedToCallShutdown(String::from("alpha")).to_string(),
        "Failed to call shutdown on the system server: alpha"
    );
    assert_eq!(
        CliError::FailedToLaunchLG(String::from("alpha")).to_string(),
        "Failed to call LaunchLG on the system server: alpha"
    );
    assert_eq!(
        CliError::FailedToLaunchSpice(String::from("alpha")).to_string(),
        "Failed to call LaunchSpice on the system server: alpha"
    );
    assert_eq!(
        CliError::FailedToConnectToSessionBus(String::from("alpha")).to_string(),
        "Could not connect to the session dbus: alpha"
    );
}

#[test]
fn every_bus_error_has_its_message() {
    assert_eq!(
        DBusError::FailedToConnectToSystemBus(String::from("alpha")).to_string(),
        "Failed to connect to system bus: alpha"
    );
    assert_eq!(
        DBusError::SystemBusLost(String::from("alpha")).to_string(),
        "Connection to System Bus was lost: alpha"
    );
    assert_eq!(
        DBusError::UserBusLost(1000, String::from("beta")).to_string(),
        "Connection to the user 1000's, bus was lost: beta"
    );
    assert_eq!(
        DBusError::MethodCallError(String::from("alpha")).to_string(),
        "Could not call dbus method: alpha"
    );
    assert_eq!(
        DBusError::UserMethodCallError(1000, String::from("beta")).to_string(),
        "Could not call user dbus method for user 1000, with error: beta"
    );
    assert_eq!(
        DBusError::PropertyQueryError(String::from("alpha")).to_string(),
        "Failed to Query for property: alpha"
    );
    assert_eq!(
        DBusError::UserPropertyQueryError(1000, String::from("beta")).to_string(),
        "Failed to Query for user bus property for user 1000, with error: beta"
    );
    assert_eq!(
        DBusError::FailedToSetEUID(1000, String::from("beta")).to_string(),
        "Could not set the effective uid 1000, err: beta"
    );
    assert_eq!(
        DBusError::FailedToOpenChannel(String::from("alpha"), String::from("beta")).to_string(),
        "Could not open the channel with address alpha, with error: beta"
    );
    assert_eq!(
        DBusError::FailedToRegisterChannel(String::from("alpha"), String::from("beta")).to_string(),
        "Could not register channel with address alpha, with error: beta"
    );
    assert_eq!(
        DBusError::FailedToConnectToUserBus(1000, String::from("beta")).to_string(),
        "Connecting to user 1000's bus failed with error: beta"
    );
    assert_eq!(
        DBusError::FailedToGetSessions(String::from("alpha")).to_string(),
        "Call to login1 of ListSessions failed: alpha"
    );
    assert_eq!(
        DBusError::FailedToAqcuireConnectionsLock(String::from("alpha")).to_string(),
        "Session handler failed to lock the dbus connections mutex: alpha"
    );
    assert_eq!(
        DBusError::FailedToGetSessionClass(String::from("alpha"), String::from("beta")).to_string(),
        "Could not get class from session: alpha, with err: beta"
    );
    assert_eq!(
        DBusError::FailedToGetSessionDisplay(String::from("alpha"), String::from("beta")).to_string(),
        "Could not get display from session: alpha, with err: beta"
    );
    assert_eq!(
        DBusError::FailedToGetSessionUser(String::from("alpha"), String::from("beta")).to_string(),
        "Could not get user path from session: alpha, with err: beta"
    );
    assert_eq!(
        DBusError::FailedToGetUserRuntimePath(String::from("alpha"), String::from("beta")).to_string(),
        "Could not get the runtime path from login1 for user: alpha, with error: beta"
    );
    assert_eq!(
        DBusError::FailedToGetSystemdEnvironment(1000, String::from("beta")).to_string(),
        "Could not get environment property from user 1000's, systemd dbus service with err: beta"
    );
    assert_eq!(
        DBusError::FailedToAddSignalMatchToSystemBus(String::from("alpha")).to_string(),
        "Failed to add signal match to the system bus: alpha"
    );
}

#[test]
fn every_service_error_has_its_message() {
    assert_eq!(
        ServiceError::SystemBusLost(String::from("alpha")).to_string(),
        "Connection to System Bus was lost: alpha"
    );
    assert_eq!(
        ServiceError::MethodCallError(String::from("alpha")).to_string(),
        "Could not call dbus method: alpha"
    );
    assert_eq!(
        ServiceError::RequestNameFailed(String::from("alpha")).to_string(),
        "Failed to request name from system bus: alpha"
    );
    assert_eq!(
        ServiceError::FailedToSendShutdownSignal.to_string(),
        "Failed to send shutdown signal"
    );
    assert_eq!(
        ServiceError::FailedToReadRunUserDir(String::from("alpha")).to_string(),
        "Failed to read /run/user directory: alpha"
    );
    assert_eq!(
        ServiceError::FailedToTurnFilenameIntoString(String::from("alpha")).to_string(),
        "Could not convert filename to string: alpha"
    );
    assert_eq!(
        ServiceError::FailedToOpenUserChannel(String::from("alpha")).to_string(),
        "Could not open user channel: alpha"
    );
    assert_eq!(
        ServiceError::FailedToRegisterUserChannel(String::from("alpha")).to_string(),
        "Could not register user channel: alpha"
    );
    assert_eq!(
        ServiceError::FailedToOpenDBusSession(String::from("alpha")).to_string(),
        "Failed to open dbus session: alpha"
    );
    assert_eq!(
        ServiceError::FailedToConnectToSystemBus(String::from("alpha")).to_string(),
        "Failed to connect to system bus: alpha"
    );
}

#[test]
fn every_servant_error_has_its_message() {
    assert_eq!(
        ServantError::FailedToConnectToSystemBus(String::from("alpha")).to_string(),
        "Failed to connect to the system dbus: alpha"
    );
    assert_eq!(
        ServantError::FailedToCallDBusMethod(String::from("alpha")).to_string(),
        "Failed to call the UserReady method on the system bus: alpha"
    );
    assert_eq!(
        ServantError::FailedToCallXInputList(String::from("alpha")).to_string(),
        "Call to xinput list failed: alpha"
    );
    assert_eq!(
        ServantError::FailedToParseDataFromXInput.to_string(),
        "Parsing data from xinput failed, unknown cause"
    );
    assert_eq!(
        ServantError::FailedToToggleMouse(String::from("alpha")).to_string(),
        "Using xinput to toggle mouse failed: alpha"
    );
    assert_eq!(
        ServantError::FailedToStartLookingGlass(String::from("alpha")).to_string(),
        "Failed to start looking glass client: alpha"
    );
    assert_eq!(
        ServantError::FailedToStartVirtViewer(String::from("alpha")).to_string(),
        "Failed to start virt viewer: alpha"
    );
    assert_eq!(
        ServantError::LostConnectionToDBus(String::from("alpha")).to_string(),
        "Connection to system bus was dropped: alpha"
    );
    assert_eq!(
        ServantError::FailedToConvertOutputToString(String::from("alpha")).to_string(),
        "could not convert output of xinput list to a string: alpha"
    );
    assert_eq!(
        ServantError::FailedToFindMouseIDFromXInput.to_string(),
        "Could not find the correct mouse id from xinput"
    );
}

#[test]
fn every_session_error_has_its_message() {
    assert_eq!(
        SessionError::FailedToConnectToSystemBus(String::from("alpha")).to_string(),
        "Could not connect to the system dbus: alpha"
    );
    assert_eq!(
        SessionError::UnknownLaunchType(String::from("alpha")).to_string(),
        "The UserConnected method of org.cws.WindowsLauncher return an unknown launch type: alpha"
    );
    assert_eq!(
        SessionError::FailedToLaunchLookingGlass(String::from("alpha")).to_string(),
        "Could not launch looking-glass-client: alpha"
    );
    assert_eq!(
        SessionError::FailedToWaitOnViewer(String::from("alpha")).to_string(),
        "Asynchronously waiting on the launched viewer process failed: alpha"
    );
    assert_eq!(SessionError::LookingGlassFailed.to_string(), "Looking glass returned with error");
    assert_eq!(
        SessionError::FailedToLaunchVirtViewer(String::from("alpha")).to_string(),
        "Could not launch virt-viewer: alpha"
    );
    assert_eq!(SessionError::VirtViewerFailed.to_string(), "virt-viewer returned with error");
    assert_eq!(
        SessionError::FailedtoCreateLogFile(String::from("alpha")).to_string(),
        "Could not create the log files: alpha"
    );
    assert_eq!(
        SessionError::ServerError(String::from("alpha")).to_string(),
        "Server return error: alpha"
    );
}

#[test]
fn every_mouse_error_has_its_message() {
    assert_eq!(
        MouseError::FailedToAddPathToLibinput.to_string(),
        "Could not add mouse input path to libinput context"
    );
    assert_eq!(
        MouseError::FailedToStripEventFromSysname.to_string(),
        "Stripping event prefix from input sysname failed"
    );
    assert_eq!(
        MouseError::FailedToParseSysnameForID(String::from("alpha")).to_string(),
        "Could not parse stripped sysname for input id: alpha"
    );
    assert_eq!(
        MouseError::FailedToOpenMouseDevice(String::from("alpha")).to_string(),
        "Failed to open mouse input as a device: alpha"
    );
    assert_eq!(
        MouseError::FailedToTurnDeviceIntoStream(String::from("alpha")).to_string(),
        "Failed to convert mouse input device to event stream: alpha"
    );
    assert_eq!(
        MouseError::FailedToCreateDeviceBuilder(String::from("alpha")).to_string(),
        "Could not create VirtualDeviceBuilder: alpha"
    );
    assert_eq!(
        MouseError::FailedToAddRelativeAxes(String::from("alpha")).to_string(),
        "Ccould not add relative axes to virtual device builder: alpha"
    );
    assert_eq!(
        MouseError::FailedToAddKeys(String::from("alpha")).to_string(),
        "Could not add keys to virtual device builder: alpha"
    );
    assert_eq!(
        MouseError::FailedToBuildVirtualMouse(String::from("alpha")).to_string(),
        "Could not build virtual device: alpha"
    );
    assert_eq!(
        MouseError::FailedToGetOutputSyspath(String::from("alpha")).to_string(),
        "Failed to get syspath of mouse output: alpha"
    );
    assert_eq!(
        MouseError::FailedToReadOutputSyspath(String::from("alpha")).to_string(),
        "Could not read syspath dir of mouse output: alpha"
    );
    assert_eq!(
        MouseError::FailedToFindEventFileInOutputSyspath.to_string(),
        "Could not find event file/folder in syspath of mouse output"
    );
    assert_eq!(
        MouseError::FailedToParseEventFileForOutputID(String::from("alpha")).to_string(),
        "Could not parse event file of mouse output syspath for output id: alpha"
    );
    assert_eq!(
        MouseError::FailedToGetEventFromTestStream(String::from("alpha")).to_string(),
        "Failed to get an event from the test stream: alpha"
    );
    assert_eq!(
        MouseError::FailedToDispatchLibinput(String::from("alpha")).to_string(),
        "Could not dispath libinput context: alpha"
    );
    assert_eq!(
        MouseError::FailedToEmitMouseEvents(String::from("alpha")).to_string(),
        "Could not emit mouse events on virtual device: alpha"
    );
    assert_eq!(
        MouseError::FailedToCallXInputList(String::from("alpha")).to_string(),
        "Call to xinput list failed: alpha"
    );
    assert_eq!(
        MouseError::FailedToConvertOutputToString(String::from("alpha")).to_string(),
        "Could not convert xinput list output to string: alpha"
    );
    assert_eq!(
        MouseError::FailedToFindMouseIDFromXInput.to_string(),
        "Finding mouse id from xinput list failed"
    );
    assert_eq!(
        MouseError::FailedToToggleMouse(String::from("alpha")).to_string(),
        "Toggling mouse with xinput --enable/disable failed: alpha"
    );
    assert_eq!(
        MouseError::FailedToAddSignalMatchToSystemBus(String::from("alpha")).to_string(),
        "Could not add signal match for SessionNew on the system bus: alpha"
    );
    assert_eq!(
        MouseError::FailedToGetCurrentSessions(String::from("alpha")).to_string(),
        "Failed to call ListSession on login1: alpha"
    );
    assert_eq!(
        MouseError::FailedToGetSessionDisplay(String::from("alpha"), String::from("beta")).to_string(),
        "Could not get display from session alpha, with err beta"
    );
    assert_eq!(
        MouseError::FailedToAqcuireSessionListLock(String::from("alpha")).to_string(),
        "Could not lock the session list: alpha"
    );
}

#[test]
fn every_gpu_setup_error_has_its_message() {
    assert_eq!(
        GpuSetupError::FailedToStopDP(DBusError::MethodCallError(String::from("timeout"))).to_string(),
        "Could not stop the display manager wuth err: Could not call dbus method: timeout"
    );
    assert_eq!(
        GpuSetupError::FailedToConnectUsers(DBusError::MethodCallError(String::from("timeout"))).to_string(),
        "Could not connect to user busses: Could not call dbus method: timeout"
    );
    assert_eq!(
        GpuSetupError::FailedToStopPW(DBusError::MethodCallError(String::from("timeout"))).to_string(),
        "Could not stop users pipewire.socket: Could not call dbus method: timeout"
    );
    assert_eq!(
        GpuSetupError::FailedToStopPWP(DBusError::MethodCallError(String::from("timeout"))).to_string(),
        "Could not stop users pipewire-pulse.socket: Could not call dbus method: timeout"
    );
    assert_eq!(
        GpuSetupError::FailedToUnloadKernelModule(String::from("alpha"), String::from("beta")).to_string(),
        "Could not unload kernel module: alpha, with err: beta"
    );
    assert_eq!(
        GpuSetupError::ModprobeRemoveReturnedErr(String::from("alpha"), String::from("beta")).to_string(),
        "Modprobe while unloading alpha, returned error: beta"
    );
    assert_eq!(
        GpuSetupError::FailedToDisconnectGPU(String::from("alpha"), String::from("beta")).to_string(),
        "Could not use virsh to dc alpha, with error: beta"
    );
    assert_eq!(
        GpuSetupError::FailedToLoadKernelModule(String::from("alpha"), String::from("beta")).to_string(),
        "Could not load module: alpha, with error: beta"
    );
    assert_eq!(
        GpuSetupError::FailedToStartPW(DBusError::MethodCallError(String::from("timeout"))).to_string(),
        "Could not start users pipewire.socket: Could not call dbus method: timeout"
    );
    assert_eq!(
        GpuSetupError::FailedToStartPWP(DBusError::MethodCallError(String::from("timeout"))).to_string(),
        "Could not start users pipewire-pulse.socket: Could not call dbus method: timeout"
    );
    assert_eq!(
        GpuSetupError::FailedToStartDP(DBusError::MethodCallError(String::from("timeout"))).to_string(),
        "Could not start the display manager wuth err: Could not call dbus method: timeout"
    );
}

#[test]
fn every_setup_error_has_its_message() {
    assert_eq!(
        SetupError::FailedToSetAllowedCPUs(DBusError::MethodCallError(String::from("timeout"))).to_string(),
        "Could not set allowed cpus: Could not call dbus method: timeout"
    );
    assert_eq!(
        SetupError::FailedToReadCPUDir(String::from("alpha")).to_string(),
        "Could not read the cpu dir: alpha"
    );
    assert_eq!(
        SetupError::FailedToFindVmXmlVar(String::from("alpha")).to_string(),
        "Could not find the vm xml env variable: alpha"
    );
    assert_eq!(
        SetupError::FailedToOpenVmXmlFile(String::from("alpha")).to_string(),
        "Could not open vm xml file: alpha"
    );
    assert_eq!(
        SetupError::FailedToReadVmXmlFile(String::from("alpha")).to_string(),
        "Could not read vm xml file: alpha"
    );
    assert_eq!(
        SetupError::FailedToCreateTmpXmlFile(String::from("alpha")).to_string(),
        "Could not create the temp xml file: alpha"
    );
    assert_eq!(
        SetupError::FailedToWriteTmpXmlFile(String::from("alpha")).to_string(),
        "Could not write to temp xml file: alpha"
    );
    assert_eq!(
        SetupError::FailedToLaunchVM(String::from("alpha")).to_string(),
        "Could not launch the vm: alpha"
    );
    assert_eq!(
        SetupError::CouldNotCreateWindowsLogFile(String::from("alpha")).to_string(),
        "Could not create /tmp/windows_vm_log.txt: alpha"
    );
}

fn shown(kind: LauncherErrorKind) -> String {
    LauncherError { kind, subject: String::from("alpha"), detail: String::from("beta") }.to_string()
}

#[test]
fn every_launcher_error_has_its_message() {
    assert_eq!(shown(LauncherErrorKind::ServerError), "beta");
    assert_eq!(shown(LauncherErrorKind::FailedToLockData), "Could not lock ServerData");
    assert_eq!(shown(LauncherErrorKind::FailedToSetCPUs), "Could not set AllowedCPUs with err: beta");
    assert_eq!(shown(LauncherErrorKind::FailedToReadCPUDir), "Could not read the cpu directory: beta");
    assert_eq!(shown(LauncherErrorKind::FailedToCreateMouse), "Could not create a virtual mouse: beta");
    assert_eq!(shown(LauncherErrorKind::FailedToGetXmlPath), "Could not get the xml path from the environment variables: beta");
    assert_eq!(shown(LauncherErrorKind::FailedToReadXmlPath), "Could not read the xml path: alpha, with err: beta");
    assert_eq!(shown(LauncherErrorKind::FailedToCreateXmlFile), "Failed to create the xml file at /tmp/windows.xml: beta");
    assert_eq!(shown(LauncherErrorKind::FailedtoCreateLogFile), "Failed to create vm log file: beta");
    assert_eq!(shown(LauncherErrorKind::FailedToLaunchVM), "Failed to launch the vm with virsh: beta");
    assert_eq!(shown(LauncherErrorKind::FailedToStopDP), "Could not stop the display manager: beta");
    assert_eq!(shown(LauncherErrorKind::ProcessesDidNotExit), "Waited 2 seconds, but processes that use the gpu did not close after stopping the display manager and pipewire");
    assert_eq!(shown(LauncherErrorKind::FailedToGetProcesses), "Could not get root processes from ps: beta");
    assert_eq!(shown(LauncherErrorKind::FailedToUnloadKernelModule), "Failed to unload kernel module alpha, with err: beta");
    assert_eq!(shown(LauncherErrorKind::ModprobeRemoveReturnedErr), "Modprobe returned err while unloading alpha, with stderr: beta");
    assert_eq!(shown(LauncherErrorKind::FailedToDisconnectGPU), "Failed to disconnect pci alpha, with err: beta");
    assert_eq!(shown(LauncherErrorKind::FailedToLoadKernelModule), "Failed to load kernel module alpha, with err: beta");
    assert_eq!(shown(LauncherErrorKind::FailedToStartDP), "Failed to start display-manager.service with err: beta");
    assert_eq!(shown(LauncherErrorKind::FailedToShutdownVm), "Failed to shutdown the vm with virsh: beta");
    assert_eq!(shown(LauncherErrorKind::FailedToDestroyVm), "Failed to destroy the vm with virsh: beta");
    assert_eq!(shown(LauncherErrorKind::FailedToStopVirtualMouse), "Failed to stop the virtual mouse: beta");
    assert_eq!(shown(LauncherErrorKind::FailedToConnectGPU), "Failed to reconnect gpu: alpha, with err: beta");
    assert_eq!(shown(LauncherErrorKind::FailedToRestartDP), "Failed to restart display-manager.service: beta");
    assert_eq!(shown(LauncherErrorKind::FailedToGetUsers), "Failed to get users from login1: beta");
    assert_eq!(shown(LauncherErrorKind::FailedToGetVmState), "failed to get vm state from virsh: beta");
    assert_eq!(
        shown(LauncherErrorKind::FailedToStartAudio),
        "Failed to start the audio sockets of the users: beta"
    );
    assert_eq!(
        shown(LauncherErrorKind::FailedToRestartAudio),
        "Failed to restart the audio sockets of the users: beta"
    );
}
