use vstd::prelude::*;

verus! {

/// Reports the OS caption and version, the computer name, the installed
/// memory and whether a solid-state disk is present, as JSON.
pub const SYSTEM_INFO_SCRIPT: &'static str = r#"
$os = Get-CimInstance Win32_OperatingSystem
$cs = Get-CimInstance Win32_ComputerSystem
$disk = Get-PhysicalDisk | Where-Object { $_.MediaType -eq 'SSD' -or $_.MediaType -eq 'NVMe' } | Select-Object -First 1

@{
    os_version = $os.Caption + ' ' + $os.Version
    computer_name = $cs.Name
    total_ram_gb = [math]::Round($cs.TotalPhysicalMemory / 1GB, 2)
    has_ssd = ($null -ne $disk)
} | ConvertTo-Json
"#;

/// Reports the page file's size and settings, as JSON.
pub const VIRTUAL_MEMORY_INFO_SCRIPT: &'static str = r#"
$pagefile = Get-CimInstance Win32_PageFileUsage | Select-Object -First 1
$settings = Get-CimInstance Win32_PageFileSetting | Select-Object -First 1

@{
    current_size_mb = if($pagefile) { $pagefile.AllocatedBaseSize } else { 0 }
    initial_size = if($settings) { $settings.InitialSize } else { 0 }
    maximum_size = if($settings) { $settings.MaximumSize } else { 0 }
    is_auto_managed = (Get-CimInstance Win32_ComputerSystem).AutomaticManagedPagefile
} | ConvertTo-Json
"#;

/// Replaces the page file by one of `$initialSize` to `$maximumSize` MB.
pub const SET_VIRTUAL_MEMORY_BODY: &'static str = r#"
$cs = Get-WmiObject Win32_ComputerSystem -EnableAllPrivileges
$cs.AutomaticManagedPagefile = $false
$cs.Put() | Out-Null

$pf = Get-WmiObject Win32_PageFileSetting
if ($pf) {
    $pf.Delete()
}

$newPf = ([WMIClass]"root\cimv2:Win32_PageFileSetting").CreateInstance()
$newPf.Name = "C:\pagefile.sys"
$newPf.InitialSize = $initialSize
$newPf.MaximumSize = $maximumSize
$newPf.Put() | Out-Null

Write-Output "Virtual memory configured. Restart required for changes to take effect."
"#;

/// Reports the services of the watched list that exist, as a JSON array.
pub const SERVICES_LIST_SCRIPT: &'static str = r#"
$targetServices = @(
    'lfsvc',
    'PhoneSvc',
    'Spooler',
    'PrintNotify',
    'DeviceAssociationBrokerSvc',
    'RemoteRegistry',
    'RetailDemo',
    'seclogon',
    'TimeBrokerSvc',
    'WerSvc',
    'RasMan',
    'WpcMonSvc',
    'WinRM',
    'SysMain',
    'DusmSvc'
)

$services = @()
foreach ($svcName in $targetServices) {
    $svc = Get-Service -Name $svcName -ErrorAction SilentlyContinue
    if ($svc) {
        $wmiSvc = Get-WmiObject Win32_Service -Filter "Name='$svcName'"
        $services += @{
            name = $svc.Name
            display_name = $svc.DisplayName
            status = $svc.Status.ToString()
            start_type = if($wmiSvc) { $wmiSvc.StartMode } else { "Unknown" }
        }
    }
}
$services | ConvertTo-Json -AsArray
"#;

/// Stops service `$name` and sets its startup type to `$startupType`.
pub const SET_SERVICE_STARTUP_BODY: &'static str = r#"
try {
    Stop-Service -Name $name -Force -ErrorAction SilentlyContinue
    Set-Service -Name $name -StartupType $startupType
    Write-Output "Service '$name' set to $startupType"
} catch {
    Write-Error $_.Exception.Message
}
"#;

/// Reports the entries of the three Run keys and of the startup folder, as a
/// JSON array.
pub const STARTUP_APPS_SCRIPT: &'static str = r#"
$startupApps = @()

$runKeys = @(
    'HKLM:\SOFTWARE\Microsoft\Windows\CurrentVersion\Run',
    'HKCU:\SOFTWARE\Microsoft\Windows\CurrentVersion\Run',
    'HKLM:\SOFTWARE\WOW6432Node\Microsoft\Windows\CurrentVersion\Run'
)

foreach ($key in $runKeys) {
    if (Test-Path $key) {
        $items = Get-ItemProperty -Path $key -ErrorAction SilentlyContinue
        $items.PSObject.Properties | Where-Object { $_.Name -notlike 'PS*' } | ForEach-Object {
            $startupApps += @{
                name = $_.Name
                command = $_.Value
                enabled = $true
                location = $key
            }
        }
    }
}

$startupFolder = [Environment]::GetFolderPath('Startup')
if (Test-Path $startupFolder) {
    Get-ChildItem $startupFolder -File | ForEach-Object {
        $startupApps += @{
            name = $_.BaseName
            command = $_.FullName
            enabled = $true
            location = "StartupFolder"
        }
    }
}

$startupApps | ConvertTo-Json -AsArray
"#;

/// Deletes the file of the startup folder whose base name is `$name`.
pub const STARTUP_FOLDER_REMOVAL_BODY: &'static str = r#"
$startupFolder = [Environment]::GetFolderPath('Startup')
$file = Get-ChildItem $startupFolder -File | Where-Object { $_.BaseName -eq $name }
if ($file) {
    Remove-Item $file.FullName -Force
    Write-Output "Removed $name from startup"
} else {
    Write-Output "File not found"
}
"#;

/// Deletes value `$name` under the registry key `$location`.
pub const STARTUP_REGISTRY_REMOVAL_BODY: &'static str = r#"
try {
    Remove-ItemProperty -Path $location -Name $name -Force -ErrorAction Stop
    Write-Output "Removed $name from startup"
} catch {
    Write-Error $_.Exception.Message
}
"#;

/// Reports whether the antivirus, real-time protection and controlled folder
/// access are on, as JSON; all off where Defender cannot be asked.
pub const DEFENDER_STATUS_SCRIPT: &'static str = r#"
try {
    $status = Get-MpComputerStatus -ErrorAction Stop
    @{
        antivirus_enabled = $status.AntivirusEnabled
        real_time_protection = $status.RealTimeProtectionEnabled
        controlled_folder_access = (Get-MpPreference).EnableControlledFolderAccess
    } | ConvertTo-Json
} catch {
    @{
        antivirus_enabled = $false
        real_time_protection = $false
        controlled_folder_access = 0
    } | ConvertTo-Json
}
"#;

/// Turns controlled folder access on.
pub const CONTROLLED_FOLDER_ACCESS_SCRIPT: &'static str = r#"
try {
    Set-MpPreference -EnableControlledFolderAccess Enabled
    Write-Output "Controlled Folder Access enabled successfully"
} catch {
    Write-Error $_.Exception.Message
}
"#;

/// Reports the active power scheme.
pub const POWER_PLAN_SCRIPT: &'static str = r#"
$activePlan = powercfg /getactivescheme
$activePlan
"#;

/// Lists the power schemes, one line each, GUID in the fourth field.
pub const POWER_SCHEMES_SCRIPT: &'static str = "powercfg /list\n";

/// Creates the Ultimate Performance scheme from its template; failure is
/// not reported.
pub const ULTIMATE_DUPLICATE_SCRIPT: &'static str = "powercfg -duplicatescheme e9a42b02-d5df-448d-aa00-03f14749eb61 2>$null\n";

/// Activates the power scheme `$guid`.
pub const ACTIVATE_SCHEME_BODY: &'static str = "powercfg /setactive $guid\n";

/// Writes the registry values that turn off tailored experiences, the
/// advertising ID, app launch tracking and suggested content.
pub const TELEMETRY_SCRIPT: &'static str = r#"
$results = @()

try {
    $privacyPath = 'HKCU:\Software\Microsoft\Windows\CurrentVersion\Privacy'
    if (-not (Test-Path $privacyPath)) {
        New-Item -Path $privacyPath -Force | Out-Null
    }
    Set-ItemProperty -Path $privacyPath -Name 'TailoredExperiencesWithDiagnosticDataEnabled' -Value 0 -Type DWord -Force
    $results += "Disabled tailored experiences"
} catch { $results += "Failed to disable tailored experiences" }

try {
    $advertisingPath = 'HKCU:\Software\Microsoft\Windows\CurrentVersion\AdvertisingInfo'
    if (-not (Test-Path $advertisingPath)) {
        New-Item -Path $advertisingPath -Force | Out-Null
    }
    Set-ItemProperty -Path $advertisingPath -Name 'Enabled' -Value 0 -Type DWord -Force
    $results += "Disabled advertising ID"
} catch { $results += "Failed to disable advertising ID" }

try {
    $explorerPath = 'HKCU:\Software\Microsoft\Windows\CurrentVersion\Explorer\Advanced'
    Set-ItemProperty -Path $explorerPath -Name 'Start_TrackProgs' -Value 0 -Type DWord -Force
    $results += "Disabled app launch tracking"
} catch { $results += "Failed to disable app launch tracking" }

try {
    $contentPath = 'HKCU:\Software\Microsoft\Windows\CurrentVersion\ContentDeliveryManager'
    Set-ItemProperty -Path $contentPath -Name 'SubscribedContent-338393Enabled' -Value 0 -Type DWord -Force
    Set-ItemProperty -Path $contentPath -Name 'SubscribedContent-353694Enabled' -Value 0 -Type DWord -Force
    Set-ItemProperty -Path $contentPath -Name 'SubscribedContent-353696Enabled' -Value 0 -Type DWord -Force
    $results += "Disabled suggested content"
} catch { $results += "Failed to disable suggested content" }

$results -join "`n"
"#;

/// Reports the IPv4 DNS servers of each adapter that is up, as a JSON array.
pub const DNS_SETTINGS_SCRIPT: &'static str = r#"
$adapters = Get-NetAdapter | Where-Object { $_.Status -eq 'Up' }
$dnsInfo = @()

foreach ($adapter in $adapters) {
    $dns = Get-DnsClientServerAddress -InterfaceIndex $adapter.ifIndex -AddressFamily IPv4 -ErrorAction SilentlyContinue
    $dnsInfo += @{
        adapter_name = $adapter.Name
        interface_index = $adapter.ifIndex
        dns_servers = $dns.ServerAddresses
    }
}

$dnsInfo | ConvertTo-Json -AsArray
"#;

/// Sets 1.1.1.1 and 1.0.0.1 as DNS servers of each adapter that is up.
pub const CLOUDFLARE_DNS_SCRIPT: &'static str = r#"
$adapters = Get-NetAdapter | Where-Object { $_.Status -eq 'Up' }
$results = @()

foreach ($adapter in $adapters) {
    try {
        Set-DnsClientServerAddress -InterfaceIndex $adapter.ifIndex -ServerAddresses ("1.1.1.1", "1.0.0.1")
        $results += "Set Cloudflare DNS on $($adapter.Name)"
    } catch {
        $results += "Failed on $($adapter.Name): $($_.Exception.Message)"
    }
}

$results -join "`n"
"#;

/// Reports the watched optional features and every enabled one, as a JSON
/// array.
pub const OPTIONAL_FEATURES_SCRIPT: &'static str = r#"
$targetFeatures = @(
    'Internet-Explorer-Optional-amd64',
    'FaxServicesClientPackage',
    'WorkFolders-Client',
    'Printing-Foundation-Features',
    'SMB1Protocol',
    'Windows-Defender-Default-Definitions',
    'MediaPlayback',
    'Microsoft-Hyper-V-All',
    'Microsoft-Windows-Subsystem-Linux',
    'Printing-PrintToPDFServices-Features'
)

$features = @()
$windowsFeatures = Get-WindowsOptionalFeature -Online -ErrorAction SilentlyContinue

foreach ($feature in $windowsFeatures) {
    if ($targetFeatures -contains $feature.FeatureName -or $feature.State -eq 'Enabled') {
        $features += @{
            name = $feature.FeatureName
            display_name = $feature.FeatureName -replace '-', ' '
            state = $feature.State.ToString()
        }
    }
}

$features | ConvertTo-Json -AsArray
"#;

/// Disables the optional feature `$featureName`, without a restart.
pub const DISABLE_FEATURE_BODY: &'static str = r#"
try {
    Disable-WindowsOptionalFeature -Online -FeatureName $featureName -NoRestart -ErrorAction Stop
    Write-Output "Feature '$featureName' disabled. Restart may be required."
} catch {
    Write-Error $_.Exception.Message
}
"#;

/// Chooses custom visual effects with most animations off and font
/// smoothing kept.
pub const VISUAL_EFFECTS_SCRIPT: &'static str = r#"
$path = 'HKCU:\Software\Microsoft\Windows\CurrentVersion\Explorer\VisualEffects'
if (-not (Test-Path $path)) {
    New-Item -Path $path -Force | Out-Null
}

Set-ItemProperty -Path $path -Name 'VisualFXSetting' -Value 3 -Type DWord -Force

$advancedPath = 'HKCU:\Control Panel\Desktop'

Set-ItemProperty -Path $advancedPath -Name 'UserPreferencesMask' -Value ([byte[]](0x90,0x12,0x03,0x80,0x10,0x00,0x00,0x00)) -Type Binary -Force

$dwmPath = 'HKCU:\Software\Microsoft\Windows\DWM'
Set-ItemProperty -Path $dwmPath -Name 'EnableAeroPeek' -Value 0 -Type DWord -Force -ErrorAction SilentlyContinue

Set-ItemProperty -Path $advancedPath -Name 'FontSmoothing' -Value '2' -Type String -Force

Write-Output "Visual effects optimized. Some changes may require a restart."
"#;

/// Stops service `$name` and disables it; where it cannot be disabled, writes
/// the reason to standard error and exits with 1.
pub const DISABLE_SERVICE_BODY: &'static str = r#"
try {
    Stop-Service -Name $name -Force -ErrorAction SilentlyContinue
    Set-Service -Name $name -StartupType Disabled -ErrorAction Stop
} catch {
    [Console]::Error.WriteLine($_.Exception.Message)
    exit 1
}
exit 0
"#;

/// Sets service `$name` to start on demand; where it cannot be set, writes
/// the reason to standard error and exits with 1.
pub const MANUAL_SERVICE_BODY: &'static str = r#"
try {
    Set-Service -Name $name -StartupType Manual -ErrorAction Stop
} catch {
    [Console]::Error.WriteLine($_.Exception.Message)
    exit 1
}
exit 0
"#;

/// Stops service `$name` and disables it, ignoring what cannot be done; it
/// always exits with 0.
pub const QUIET_DISABLE_SERVICE_BODY: &'static str = r#"
Stop-Service -Name $name -Force -ErrorAction SilentlyContinue
Set-Service -Name $name -StartupType Disabled -ErrorAction SilentlyContinue
exit 0
"#;

/// Turns the advertising ID off; where it cannot, writes the reason to
/// standard error and exits with 1.
pub const ADVERTISING_ID_SCRIPT: &'static str = r#"
try {
    $advertisingPath = 'HKCU:\Software\Microsoft\Windows\CurrentVersion\AdvertisingInfo'
    if (-not (Test-Path $advertisingPath)) { New-Item -Path $advertisingPath -Force | Out-Null }
    Set-ItemProperty -Path $advertisingPath -Name 'Enabled' -Value 0 -Type DWord -Force -ErrorAction Stop
} catch {
    [Console]::Error.WriteLine($_.Exception.Message)
    exit 1
}
exit 0
"#;

/// Activates the High performance scheme; where there is none, or it cannot
/// be activated, writes the reason to standard error and exits with 1.
pub const HIGH_PERFORMANCE_SCRIPT: &'static str = r#"
try {
    $highPerf = powercfg /list | Select-String "High performance"
    if (-not $highPerf) { throw "High performance plan not found" }
    $guid = ($highPerf -split '\s+')[3]
    powercfg /setactive $guid
    if ($LASTEXITCODE -ne 0) { throw "powercfg could not activate $guid" }
} catch {
    [Console]::Error.WriteLine($_.Exception.Message)
    exit 1
}
exit 0
"#;

/// Empties the user's and the system's temporary folders, as far as it can;
/// it always exits with 0.
pub const TEMP_CLEANUP_SCRIPT: &'static str = r#"
Remove-Item "$env:TEMP\*" -Force -Recurse -ErrorAction SilentlyContinue
Remove-Item "C:\Windows\Temp\*" -Force -Recurse -ErrorAction SilentlyContinue
exit 0
"#;

} // verus!
